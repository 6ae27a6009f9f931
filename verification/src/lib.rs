//! Core of an ISOBUS (ISO 11783) communication stack: the CAN frame and PDU
//! codec, the two segmented transport protocols, the address-claim network
//! manager, the object-pool codec, and the virtual-terminal working-set
//! state machine. Drivers perform I/O behind a small trait and are the
//! host's to supply; everything here is verified.

mod claim;
mod dll;
mod driver;
mod etp;
mod events;
mod functions;
mod isobus;
mod language;
mod mock_driver;
mod name;
mod network;
mod object_io;
mod object_pool;
pub mod objects;
mod pdu;
mod pgn;
mod time;
mod tp;
mod transport_pdu;
mod virtual_terminal;
mod vt_messages;
mod vt_pdu;
mod working_set;

pub use dll::DataLinkLayer;
pub use driver::Baudrate;
pub use driver::CanDriverTrait;
pub use driver::CanError;
pub use driver::CanFrame;
pub use driver::CanbusError;
pub use driver::ExtendedId;
pub use driver::Id;
pub use driver::StandardId;
pub use etp::ExtendedTransportProtocolManager;
pub use events::EventType;
pub use functions::FunctionEnum;
pub use functions::GlobalFunctionEnum;
pub use functions::IndustryGroup;
pub use functions::OnHighwayEquipmentFunctionEnum;
pub use isobus::Isobus;
pub use isobus::IsobusAddress;
pub use isobus::IsobusBuilder;
pub use isobus::IsobusState;
pub use language::AreaUnitsEnum;
pub use language::DateFormatEnum;
pub use language::DecimalSymbolEnum;
pub use language::DistanceUnitsEnum;
pub use language::ForceUnitsEnum;
pub use language::LanguageSettings;
pub use language::LanguageSettingsBuilder;
pub use language::MassUnitsEnum;
pub use language::PressureUnitsEnum;
pub use language::TemperatureUnitsEnum;
pub use language::TimeFormatEnum;
pub use language::UnitsSystemEnum;
pub use language::VolumeUnitsEnum;
pub use mock_driver::MockCanDriver;
pub use name::Name;
pub use name::NameBuilder;
pub use network::ClaimState;
pub use network::ConnectError;
pub use network::NetworkError;
pub use network::NetworkManager;
pub use network::NmView;
pub use object_io::ParseError;
pub use object_pool::ObjectPool;
pub use objects::Colour;
pub use objects::Object;
pub use objects::ObjectId;
pub use objects::ObjectType;
pub use pdu::PduPriority;
pub use pdu::PDU;
pub use pgn::PGN;
pub use tp::TransportProtocolManager;
pub use transport_pdu::EtpAbortReasons;
pub use transport_pdu::TpAbortReasons;
pub use virtual_terminal::VirtualTerminal;
pub use vt_messages::ButtonActivationMessage;
pub use vt_messages::ButtonActivationResponse;
pub use vt_messages::ChangeActiveMaskCommand;
pub use vt_messages::ChangeActiveMaskResponse;
pub use vt_messages::ChangeNumericValueCommand;
pub use vt_messages::ChangeNumericValueResponse;
pub use vt_messages::ChangeStringValueCommand;
pub use vt_messages::ChangeStringValueResponse;
pub use vt_messages::EndOfObjectPoolMessage;
pub use vt_messages::EndOfObjectPoolResponse;
pub use vt_messages::KeyActivationCode;
pub use vt_messages::SoftKeyActivationMessage;
pub use vt_messages::SoftKeyActivationResponse;
pub use vt_messages::VTChangeNumericValueCommand;
pub use vt_messages::VTChangeNumericValueResponse;
pub use vt_messages::VTChangeStringValueCommand;
pub use vt_messages::VTChangeStringValueResponse;
pub use vt_messages::VTStatusMessage;
pub use vt_messages::VTVersion;
pub use vt_messages::WorkingSetMaintenanceMessage;
pub use working_set::WorkingSet;
pub use working_set::WsState;
