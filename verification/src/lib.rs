//! Control registers of a graphics controller with two display engines: the
//! layout of each register, bit for bit, and the values that the operations
//! on them store. The loads and stores themselves are left to the caller.

pub mod accessors;
pub mod background;
pub mod bits;
pub mod brightness;
pub mod color;
pub mod main_control;
pub mod mmio;
pub mod power;
pub mod sub_control;
pub mod vcount;

pub use accessors::{
    get_main_bg_control, get_main_display_control, get_sub_bg_control, get_sub_display_control,
    main_bg_control_register, set_main_bg_control, set_main_display_control, set_sub_bg_control,
    set_sub_display_control, sub_bg_control_register,
};
pub use background::BackgroundControl;
pub use brightness::{set_brightness, GfxEngine};
pub use color::rgb15;
pub use main_control::DisplayControlMain;
pub use mmio::{AddressTable, Store16, Store32};
pub use power::{power_off, power_on, set_engine_lcd, GfxPwr, MainEnginePos};
pub use sub_control::DisplayControlSub;
pub use vcount::set_vcount_trigger;
