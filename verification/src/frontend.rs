//! The browser side: the transports, the negotiation between them, the
//! realtime service, and the state of the user interface.

pub mod api_service;
pub mod config_service;
pub mod panel;
pub mod plugins;
pub mod realtime_service;
pub mod state_service;
pub mod transport;
pub mod transport_manager;
pub mod websocket_transport;
pub mod webtransport_transport;
