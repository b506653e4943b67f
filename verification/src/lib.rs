//! Verified core of a WalkingPad treadmill monitor: the frame codec for the
//! device's proprietary telemetry format, the device-discovery decision logic,
//! characteristic role binding, and the poll/notify control loop, all as pure
//! functions over plain values. The BLE transport itself lives outside this
//! library.

pub mod codec;
pub mod control;
pub mod error;
pub mod locator;
pub mod render;
pub mod session;

pub use codec::DecodeError;
pub use codec::Telemetry;
pub use codec::decode_telemetry;
pub use codec::encode_poll_command;
pub use codec::extract_value;
pub use control::LoopAction;
pub use control::LoopEvent;
pub use control::LoopState;
pub use control::poll_step;
pub use error::CharacteristicRole;
pub use error::SessionError;
pub use locator::ScanAction;
pub use locator::ScanEvent;
pub use locator::find_device;
pub use locator::locate_step;
pub use render::format_duration;
pub use render::render_distance;
pub use render::render_speed;
pub use render::render_telemetry;
pub use render::to_decimal;
pub use render::to_two_digits;
pub use session::RoleBinding;
pub use session::READ_CHARACTERISTIC_CODE;
pub use session::WRITE_CHARACTERISTIC_CODE;
pub use session::bind_roles;
pub use session::find_characteristic;
