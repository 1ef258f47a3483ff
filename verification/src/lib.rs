//! A mock of the management protocol spoken by server and DPU baseboard
//! management controllers: many virtual instances behind one endpoint.

pub mod bmc_state;
pub mod bug;
pub mod combined_server;
pub mod combined_service;
pub mod forwarded;
pub mod http;
pub mod hw;
pub mod json;
pub mod mock_machine_router;
pub mod power;
pub mod rack_firmware;
pub mod redfish;
pub mod router;
pub mod text;
pub mod tls;
