//! NVIDIA BlueField-3: what an instance that stands for one is configured
//! with.

use vstd::prelude::*;
use vstd::string::StringExecFns;
use crate::json::JsonModel;
use crate::json::JsonObject;
use crate::json::JsonValue;
use crate::redfish::bios;
use crate::redfish::boot_option;
use crate::redfish::chassis::ChassisConfig;
use crate::redfish::chassis::SingleChassisConfig;
use crate::redfish::chassis::SingleChassisModel;
use crate::redfish::computer_system::BiosMode;
use crate::redfish::computer_system::BootOrderMode;
use crate::redfish::computer_system::SingleSystemConfig;
use crate::redfish::computer_system::SingleSystemModel;
use crate::redfish::computer_system::SystemConfig;
use crate::redfish::ethernet_interface;
use crate::redfish::ethernet_interface::hex_pair;
use crate::redfish::ethernet_interface::mac_display;
use crate::redfish::ethernet_interface::mac_text;
use crate::redfish::manager::Config;
use crate::redfish::oem::nvidia::bluefield::mode_name;
use crate::redfish::manager::ConfigModel;
use crate::text::ascii_uppercase;
use crate::text::joined;
use crate::text::ascii_uppercased;
use crate::text::lemma_replaced_concat;
use crate::text::replaced;
use crate::text::without_char;

verus! {

/// One BlueField-3 card.
pub struct Bluefield3 {
    pub product_serial_number: String,
    pub bmc_mac_address: [u8; 6],
    pub oob_mac_address: Option<[u8; 6]>,
    pub nic_mode: bool,
}

/// The part number of a card. It goes with the mode: a card that runs as a
/// plain NIC is a SuperNIC, a card that runs as a DPU is a DPU, and clients
/// expect the part number to say the same.
pub open spec fn spec_part_number(nic_mode: bool) -> Seq<char> {
    if nic_mode {
        "900-9D3B4-00CC-EA0"@
    } else {
        "900-9D3B6-00CV-AA0"@
    }
}

/// The ordering part number of a card, which goes with the mode too.
pub open spec fn spec_opn(nic_mode: bool) -> Seq<char> {
    if nic_mode {
        "9009D3B400CCEA"@
    } else {
        "9009D3B600CVAA"@
    }
}

/// The chassis of a card.
pub open spec fn spec_chassis_config(serial: Seq<char>, nic_mode: bool) -> Seq<
    SingleChassisModel,
> {
    seq![
        SingleChassisModel {
            id: "Bluefield_BMC"@,
            manufacturer: Some("Nvidia"@),
            model: Some("BlueField-3 DPU"@),
            network_adapters: Some(Seq::empty()),
            part_number: Some(spec_part_number(nic_mode)),
            pcie_devices: Some(Seq::empty()),
            serial_number: Some(serial),
        },
        SingleChassisModel {
            id: "Bluefield_ERoT"@,
            manufacturer: Some("NVIDIA"@),
            model: None,
            network_adapters: None,
            part_number: None,
            pcie_devices: None,
            serial_number: Some(""@),
        },
        SingleChassisModel {
            id: "CPU_0"@,
            manufacturer: Some("https://www.mellanox.com"@),
            model: Some("Mellanox BlueField-3 [A1] A78(D42) 16 Cores r0p1"@),
            network_adapters: Some(Seq::empty()),
            part_number: Some("OPN: "@ + spec_opn(nic_mode)),
            pcie_devices: Some(Seq::empty()),
            serial_number: Some("Unspecified Serial Number"@),
        },
        SingleChassisModel {
            id: "Card1"@,
            manufacturer: Some("Nvidia"@),
            model: Some("BlueField-3 DPU"@),
            network_adapters: Some(Seq::empty()),
            part_number: Some(spec_part_number(nic_mode)),
            pcie_devices: Some(Seq::empty()),
            serial_number: Some(serial),
        },
    ]
}

/// An address as the UEFI device path writes it: the hexadecimal digits of
/// its six bytes in upper case, with nothing between them.
pub open spec fn mac_without_colons(mac: Seq<u8>) -> Seq<char> {
    hex_pair(mac[0]) + hex_pair(mac[1]) + hex_pair(mac[2]) + hex_pair(mac[3]) + hex_pair(mac[4])
        + hex_pair(mac[5])
}

/// Two hexadecimal digits hold no colon and no lower-case letter: taking
/// the colons out and putting the letters in upper case leaves them as they
/// are.
proof fn lemma_hex_pair_is_clean(byte: u8)
    ensures
        replaced(hex_pair(byte), ':', Seq::empty()) == hex_pair(byte),
        ascii_uppercase(hex_pair(byte)) == hex_pair(byte),
{
    let pair = hex_pair(byte);
    let none = Seq::<char>::empty();
    assert(pair.drop_last() =~= seq![pair[0]]);
    assert(pair.drop_last().drop_last() =~= none);
    assert(replaced(pair.drop_last().drop_last(), ':', none) =~= none);
    assert(replaced(pair.drop_last(), ':', none) =~= seq![pair[0]]);
    assert(replaced(pair, ':', none) =~= pair);
    assert(ascii_uppercase(pair) =~= pair);
}

/// The text of an address without its colons and in upper case is the row
/// of its hexadecimal digits.
pub proof fn lemma_mac_without_colons(mac: Seq<u8>)
    requires
        mac.len() == 6,
    ensures
        ascii_uppercase(replaced(mac_display(mac), ':', Seq::empty())) == mac_without_colons(mac),
{
    let none = Seq::<char>::empty();
    let colon = seq![':'];
    assert(colon.drop_last() =~= none);
    assert(replaced(none, ':', none) =~= none);
    assert(colon.last() == ':');
    assert(replaced(colon, ':', none) =~= replaced(colon.drop_last(), ':', none) + none);
    assert(replaced(colon, ':', none) =~= none);
    let p0 = hex_pair(mac[0]);
    let p1 = hex_pair(mac[1]);
    let p2 = hex_pair(mac[2]);
    let p3 = hex_pair(mac[3]);
    let p4 = hex_pair(mac[4]);
    let p5 = hex_pair(mac[5]);
    lemma_hex_pair_is_clean(mac[0]);
    lemma_hex_pair_is_clean(mac[1]);
    lemma_hex_pair_is_clean(mac[2]);
    lemma_hex_pair_is_clean(mac[3]);
    lemma_hex_pair_is_clean(mac[4]);
    lemma_hex_pair_is_clean(mac[5]);
    let t1 = p0 + colon;
    let t2 = t1 + p1;
    let t3 = t2 + colon;
    let t4 = t3 + p2;
    let t5 = t4 + colon;
    let t6 = t5 + p3;
    let t7 = t6 + colon;
    let t8 = t7 + p4;
    let t9 = t8 + colon;
    let t10 = t9 + p5;
    assert(t10 == mac_display(mac));
    lemma_replaced_concat(p0, colon, ':', none);
    lemma_replaced_concat(t1, p1, ':', none);
    lemma_replaced_concat(t2, colon, ':', none);
    lemma_replaced_concat(t3, p2, ':', none);
    lemma_replaced_concat(t4, colon, ':', none);
    lemma_replaced_concat(t5, p3, ':', none);
    lemma_replaced_concat(t6, colon, ':', none);
    lemma_replaced_concat(t7, p4, ':', none);
    lemma_replaced_concat(t8, colon, ':', none);
    lemma_replaced_concat(t9, p5, ':', none);
    let clean = replaced(t10, ':', none);
    assert(clean =~= mac_without_colons(mac));
    assert(ascii_uppercase(mac_without_colons(mac)) =~= mac_without_colons(mac)) by {
        assert(ascii_uppercase(p0) == p0 && ascii_uppercase(p1) == p1 && ascii_uppercase(p2) == p2
            && ascii_uppercase(p3) == p3 && ascii_uppercase(p4) == p4 && ascii_uppercase(p5)
            == p5);
        let whole = mac_without_colons(mac);
        assert forall|i: int| 0 <= i < whole.len() implies #[trigger] ascii_uppercase(whole)[i]
            == whole[i] by {
            let k = i / 2;
            let pair = hex_pair(mac[k]);
            assert(whole[i] == pair[i % 2]);
            assert(ascii_uppercase(pair)[i % 2] == pair[i % 2]);
        }
    }
}

/// The out-of-band interface of a card.
pub open spec fn oob_interface(mac: Seq<u8>) -> Map<Seq<char>, JsonModel> {
    ethernet_interface::spec_system_resource("Bluefield"@, "oob_net0"@).base_document().insert(
        "MACAddress"@,
        JsonModel::String(mac_display(mac)),
    ).insert("Description"@, JsonModel::String("1G DPU OOB network interface"@))
}

/// A boot option of a card.
pub open spec fn boot_option_document(
    id: Seq<char>,
    display_name: Seq<char>,
    uefi_device_path: Seq<char>,
) -> Map<Seq<char>, JsonModel> {
    boot_option::spec_resource("Bluefield"@, id).base_document().insert(
        "BootOptionReference"@,
        JsonModel::String(id),
    ).insert("DisplayName"@, JsonModel::String(display_name)).insert(
        "UefiDevicePath"@,
        JsonModel::String(uefi_device_path),
    )
}

/// The option to boot from the card's disk.
pub open spec fn disk_boot_option() -> Map<Seq<char>, JsonModel> {
    boot_option_document(
        "Boot0040"@,
        "ubuntu0"@,
        "HD(1,GPT,2FAFB38D-05F6-DF41-AE01-F9991E2CC0F0,0x800,0x19000)/\\EFI\\ubuntu\\shimaa64.efi"@,
    )
}

/// The option to boot over the out-of-band network.
pub open spec fn network_boot_option(mac: Seq<u8>) -> Map<Seq<char>, JsonModel> {
    boot_option_document(
        "Boot0000"@,
        "NET-OOB-IPV4-HTTP"@,
        "MAC("@ + mac_without_colons(mac)
            + ",0x1)/IPv4(0.0.0.0,0x0,DHCP,0.0.0.0,0.0.0.0,0.0.0.0)/Uri()"@,
    )
}

/// The BIOS attributes of a card.
pub open spec fn bios_attributes(nic_mode: bool) -> Map<Seq<char>, JsonModel> {
    Map::<Seq<char>, JsonModel>::empty().insert(
        "NicMode"@,
        JsonModel::String(mode_name(nic_mode)),
    ).insert("HostPrivilegeLevel"@, JsonModel::String("Unavailable"@)).insert(
        "InternalCPUModel"@,
        JsonModel::String("Unavailable"@),
    )
}

/// The system of a card, with the handle that controls its power. The
/// out-of-band interface, and the option to boot over it, are there where
/// the card has an out-of-band address.
pub open spec fn spec_system_config<P>(
    serial: Seq<char>,
    oob_mac: Option<Seq<u8>>,
    nic_mode: bool,
    pc: P,
) -> Seq<SingleSystemModel<P>> {
    seq![
        SingleSystemModel {
            id: "Bluefield"@,
            manufacturer: Some("Nvidia"@),
            model: Some("BlueField-3 DPU"@),
            eth_interfaces: match oob_mac {
                Some(mac) => seq![oob_interface(mac)],
                None => Seq::empty(),
            },
            chassis: seq!["Bluefield_BMC"@],
            serial_number: Some(serial),
            boot_order_mode: BootOrderMode::Generic,
            power_control: Some(pc),
            boot_options: match oob_mac {
                Some(mac) => seq![disk_boot_option(), network_boot_option(mac)],
                None => seq![disk_boot_option()],
            },
            bios_mode: BiosMode::Generic,
            base_bios: bios::spec_resource("Bluefield"@).base_document().insert(
                "Attributes"@,
                JsonModel::Object(bios_attributes(nic_mode)),
            ),
        },
    ]
}

/// The manager of a card.
pub open spec fn spec_manager_config(bmc_mac: Seq<u8>) -> ConfigModel {
    ConfigModel {
        id: "Bluefield_BMC"@,
        eth_interfaces: seq![
            ethernet_interface::spec_manager_resource(
                "Bluefield_BMC"@,
                "eth0"@,
            ).base_document().insert("MACAddress"@, JsonModel::String(mac_display(bmc_mac))).insert(
                "InterfaceEnabled"@,
                JsonModel::Bool(true),
            ),
        ],
        firmware_version: "BF-23.10-4"@,
    }
}

/// The view of an optional address.
pub open spec fn opt_mac(mac: Option<[u8; 6]>) -> Option<Seq<u8>> {
    match mac {
        Some(bytes) => Some(bytes@),
        None => None,
    }
}

impl Bluefield3 {
    /// The chassis of this card.
    pub fn chassis_config(&self) -> (config: ChassisConfig)
        ensures
            config@ == spec_chassis_config(self.product_serial_number@, self.nic_mode),
    {
        let mut chassis: Vec<SingleChassisConfig> = Vec::new();
        chassis.push(
            SingleChassisConfig {
                id: "Bluefield_BMC".to_owned(),
                manufacturer: Some("Nvidia".to_owned()),
                model: Some("BlueField-3 DPU".to_owned()),
                network_adapters: Some(Vec::new()),
                part_number: Some(self.part_number().to_owned()),
                pcie_devices: Some(Vec::new()),
                serial_number: Some(self.product_serial_number.clone()),
            },
        );
        chassis.push(
            SingleChassisConfig {
                id: "Bluefield_ERoT".to_owned(),
                manufacturer: Some("NVIDIA".to_owned()),
                model: None,
                network_adapters: None,
                part_number: None,
                pcie_devices: None,
                serial_number: Some("".to_owned()),
            },
        );
        chassis.push(
            SingleChassisConfig {
                id: "CPU_0".to_owned(),
                manufacturer: Some("https://www.mellanox.com".to_owned()),
                model: Some("Mellanox BlueField-3 [A1] A78(D42) 16 Cores r0p1".to_owned()),
                network_adapters: Some(Vec::new()),
                part_number: Some(joined("OPN: ", self.opn())),
                serial_number: Some("Unspecified Serial Number".to_owned()),
                pcie_devices: Some(Vec::new()),
            },
        );
        chassis.push(
            SingleChassisConfig {
                id: "Card1".to_owned(),
                manufacturer: Some("Nvidia".to_owned()),
                model: Some("BlueField-3 DPU".to_owned()),
                network_adapters: Some(Vec::new()),
                part_number: Some(self.part_number().to_owned()),
                pcie_devices: Some(Vec::new()),
                serial_number: Some(self.product_serial_number.clone()),
            },
        );
        let config = ChassisConfig { chassis };
        proof {
            let expected = spec_chassis_config(self.product_serial_number@, self.nic_mode);
            assert(config@.len() == 4);
            assert(config@[0].network_adapters->Some_0 =~= Seq::empty());
            assert(config@[0].pcie_devices->Some_0 =~= Seq::empty());
            assert(config@[2].network_adapters->Some_0 =~= Seq::empty());
            assert(config@[2].pcie_devices->Some_0 =~= Seq::empty());
            assert(config@[3].network_adapters->Some_0 =~= Seq::empty());
            assert(config@[3].pcie_devices->Some_0 =~= Seq::empty());
            assert(config@[0] == expected[0]);
            assert(config@[1] == expected[1]);
            assert(config@[2] == expected[2]);
            assert(config@[3] == expected[3]);
            assert(config@ =~= expected);
        }
        config
    }

    /// The system of this card, whose power is controlled through `pc`.
    pub fn system_config<P>(&self, pc: P) -> (config: SystemConfig<P>)
        ensures
            config@ == spec_system_config(
                self.product_serial_number@,
                opt_mac(self.oob_mac_address),
                self.nic_mode,
                pc,
            ),
    {
        let system_id = "Bluefield";
        let nic_mode = if self.nic_mode {
            "NicMode"
        } else {
            "DpuMode"
        };
        let mut eth_interfaces: Vec<JsonObject> = Vec::new();
        let mut boot_options: Vec<JsonObject> = Vec::new();
        boot_options.push(
            boot_option::builder(&boot_option::resource(system_id, "Boot0040")).boot_option_reference(
                "Boot0040",
            ).display_name("ubuntu0").uefi_device_path(
                "HD(1,GPT,2FAFB38D-05F6-DF41-AE01-F9991E2CC0F0,0x800,0x19000)/\\EFI\\ubuntu\\shimaa64.efi",
            ).build(),
        );
        if let Some(mac) = self.oob_mac_address {
            eth_interfaces.push(
                ethernet_interface::builder(
                    &ethernet_interface::system_resource("Bluefield", "oob_net0"),
                ).mac_address(mac).description("1G DPU OOB network interface").build(),
            );
            let shown = mac_text(mac);
            let without_colons = without_char(shown.as_str(), ':');
            let mocked_mac_no_colons = ascii_uppercased(without_colons.as_str());
            proof {
                lemma_mac_without_colons(mac@);
            }
            let path = joined("MAC(", mocked_mac_no_colons.as_str()).concat(
                ",0x1)/IPv4(0.0.0.0,0x0,DHCP,0.0.0.0,0.0.0.0,0.0.0.0)/Uri()",
            );
            boot_options.push(
                boot_option::builder(
                    &boot_option::resource(system_id, "Boot0000"),
                ).boot_option_reference("Boot0000").display_name(
                    "NET-OOB-IPV4-HTTP",
                ).uefi_device_path(path.as_str()).build(),
            );
        }
        let attributes = JsonObject::new().with("NicMode", JsonValue::string(nic_mode)).with(
            "HostPrivilegeLevel",
            JsonValue::string("Unavailable"),
        ).with("InternalCPUModel", JsonValue::string("Unavailable"));
        let mut chassis: Vec<String> = Vec::new();
        chassis.push("Bluefield_BMC".to_owned());
        let system = SingleSystemConfig {
            id: "Bluefield".to_owned(),
            manufacturer: Some("Nvidia".to_owned()),
            model: Some("BlueField-3 DPU".to_owned()),
            eth_interfaces,
            chassis,
            serial_number: Some(self.product_serial_number.clone()),
            boot_order_mode: BootOrderMode::Generic,
            power_control: Some(pc),
            boot_options,
            bios_mode: BiosMode::Generic,
            base_bios: bios::builder(&bios::resource(system_id)).attributes(attributes).build(),
        };
        let mut systems: Vec<SingleSystemConfig<P>> = Vec::new();
        proof {
            let expected = spec_system_config(
                self.product_serial_number@,
                opt_mac(self.oob_mac_address),
                self.nic_mode,
                pc,
            )[0];
            assert(system@.eth_interfaces =~= expected.eth_interfaces);
            assert(system@.boot_options =~= expected.boot_options);
            assert(system@.chassis =~= expected.chassis);
            assert(system@ == expected);
        }
        systems.push(system);
        let config = SystemConfig { systems };
        assert(config@ =~= spec_system_config(
            self.product_serial_number@,
            opt_mac(self.oob_mac_address),
            self.nic_mode,
            pc,
        ));
        config
    }

    /// The manager of this card.
    pub fn manager_config(&self) -> (config: Config)
        ensures
            config@ == spec_manager_config(self.bmc_mac_address@),
    {
        let mut eth_interfaces: Vec<JsonObject> = Vec::new();
        eth_interfaces.push(
            ethernet_interface::builder(
                &ethernet_interface::manager_resource("Bluefield_BMC", "eth0"),
            ).mac_address(self.bmc_mac_address).interface_enabled(true).build(),
        );
        let config = Config {
            id: "Bluefield_BMC".to_owned(),
            eth_interfaces,
            firmware_version: "BF-23.10-4".to_owned(),
        };
        assert(config@.eth_interfaces =~= spec_manager_config(
            self.bmc_mac_address@,
        ).eth_interfaces);
        config
    }

    /// The part number of this card.
    pub fn part_number(&self) -> (number: &'static str)
        ensures
            number@ == spec_part_number(self.nic_mode),
    {
        match self.nic_mode {
            true => "900-9D3B4-00CC-EA0",
            false => "900-9D3B6-00CV-AA0",
        }
    }

    /// The ordering part number of this card.
    pub fn opn(&self) -> (number: &'static str)
        ensures
            number@ == spec_opn(self.nic_mode),
    {
        match self.nic_mode {
            true => "9009D3B400CCEA",
            false => "9009D3B600CVAA",
        }
    }
}

} // verus!
