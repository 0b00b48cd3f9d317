//! Air-filter control: the wire protocol between the controller and the fan
//! unit, the controller's decision logic, and the fan unit's run logic.

pub mod protocol;
pub mod sensor;
pub mod presence;
pub mod air_quality;
pub mod control_logic;
pub mod fan;
pub mod run_logic;
pub mod client_id;
pub mod zone;
pub mod session;
