//! The semantic event model, and the conversion of raw readings into the
//! analog payload type.
use vstd::prelude::*;

verus! {

/// A typed controller event. `T` is the payload of analog events.
///
/// Digital controls carry `true` while pressed and `false` once released;
/// numbered buttons carry their index and pressed state.
#[derive(Debug, Clone, Copy, PartialEq, Eq)]
pub enum Event<T = i32> {

/// Controller unplugged.
    Disconnect,
    /// Exit / Main / Home / Mode
    Exit(bool),
    /// A / 1 / 4 / Circle.  Action A (Primary action).
    ActionA(bool),
    /// B / 2 / 3 / Cross.  Action B (Secondary action).
    ActionB(bool),
    /// C.  Action C (Tertiary action).
    ActionC(bool),
    /// Y / X / Square.  Action H (Horizontal action).
    ActionH(bool),
    /// X / Y / Triangle.  Action V (Vertical action).
    ActionV(bool),
    /// Z (in 6-button layout).  Action D.
    ActionD(bool),
    /// Left Menu / Back / Select / Minus / Stop
    MenuL(bool),
    /// Right Menu / Forward / Start / Plus / Play
    MenuR(bool),
    /// Thumb Push Button On Main / Left Joystick
    Joy(bool),
    /// Thumb Push Button On Camera / Right Joystick
    Cam(bool),
    /// Left shoulder button (near button if no trigger)
    BumperL(bool),
    /// Right shoulder button (near button if no trigger)
    BumperR(bool),
    /// Left Bumper Trigger (far button if no trigger)
    TriggerL(T),
    /// Right Bumper Trigger (far button if no trigger)
    TriggerR(T),
    /// D-Pad Up
    Up(bool),
    /// D-Pad Down
    Down(bool),
    /// D-Pad Left
    Left(bool),
    /// D-Pad Right
    Right(bool),
    /// POV/Main Hat Up
    PovUp(bool),
    /// POV/Main Hat Down
    PovDown(bool),
    /// POV/Main Hat Left
    PovLeft(bool),
    /// POV/Main Hat Right
    PovRight(bool),
    /// Extra Hat Up
    HatUp(bool),
    /// Extra Hat Down
    HatDown(bool),
    /// Extra Hat Left
    HatLeft(bool),
    /// Extra Hat Right
    HatRight(bool),
    /// Trim Hat Up
    TrimUp(bool),
    /// Trim Hat Down
    TrimDown(bool),
    /// Trim Hat Left
    TrimLeft(bool),
    /// Trim Hat Right
    TrimRight(bool),
    /// Mic Hat Up
    MicUp(bool),
    /// Mic Hat Down
    MicDown(bool),
    /// Mic Hat Left
    MicLeft(bool),
    /// Mic Hat Right
    MicRight(bool),
    /// Main stick horizontal axis (A / D)
    JoyX(T),
    /// Main stick vertical / depth axis (W / S)
    JoyY(T),
    /// Main stick rotation / yaw axis
    JoyZ(T),
    /// Secondary stick X axis (Mouse X Position)
    CamX(T),
    /// Secondary stick Y axis (Mouse Y Position)
    CamY(T),
    /// Secondary stick Z axis
    CamZ(T),
    /// Slew Control
    Slew(T),
    /// Stationary throttle
    Throttle(T),
    /// Left stationary throttle
    ThrottleL(T),
    /// Right stationary throttle
    ThrottleR(T),
    /// Volume axis
    Volume(T),
    /// Steering wheel
    Wheel(T),
    /// Ship rudder
    Rudder(T),
    /// Gas Pedal
    Gas(T),
    /// Brake Pedal
    Brake(T),
    /// Mic Hat Push Button
    MicPush(bool),
    /// Flightstick trigger button on the back.
    Trigger(bool),
    /// Flightstick Side Bumper Button
    Bumper(bool),
    /// Flightstick Top Middle Action Button
    ActionM(bool),
    /// Flightstick Top Left Action Button
    ActionL(bool),
    /// Flightstick Top Right Action Button
    ActionR(bool),
    /// Pinky Button
    Pinky(bool),
    /// Pinky three-way switch Forward.
    PinkyForward(bool),
    /// Pinky three-way switch Backward.
    PinkyBackward(bool),
    /// Flaps three-way switch Forward.
    /// - `true` - Forward (Up)
    /// - `false` - Neutral (Maneuver)
    FlapsUp(bool),
    /// Flaps three-way switch Backward.
    /// - `true` - Backward (Down)
    /// - `false` - Neutral (Maneuver)
    FlapsDown(bool),
    /// Boat three-way switch Forward.
    BoatForward(bool),
    /// Boat three-way switch Backward.
    BoatBackward(bool),
    /// Autopilot three-way switch Forward.
    /// - `true` - Forward (Path)
    /// - `false` - Neutral (Altitude / Heading)
    AutopilotPath(bool),
    /// Autopilot three-way switch Backward.
    /// - `true` - Backward (Alt)
    /// - `false` - Neutral (Altitude / Heading)
    AutopilotAlt(bool),
    /// Left Engine Operate three-way switch Backward.
    /// - `true` - Backward (Motor)
    /// - `false` - Neutral (Normal)
    EngineMotorL(bool),
    /// Right Engine Operate three-way switch Backward.
    /// - `true` - Backward (Motor)
    /// - `false` - Neutral (Normal)
    EngineMotorR(bool),
    /// Engine Fuel Flow Left two-way switch
    /// - `true` - Normal
    /// - `false` - Override
    EngineFuelFlowL(bool),
    /// Engine Fuel Flow Right two-way switch
    /// - `true` - Normal
    /// - `false` - Override
    EngineFuelFlowR(bool),
    /// Left Engine Operate three-way switch Forward.
    /// - `true` - Forward (Ignition)
    /// - `false` - Neutral (Normal)
    EngineIgnitionL(bool),
    /// Right Engine Operate three-way switch Forward.
    /// - `true` - Forward (Ignition)
    /// - `false` - Neutral (Normal)
    EngineIgnitionR(bool),
    /// Speedbrake three-way switch Backward.
    SpeedbrakeBackward(bool),
    /// Speedbrake three-way switch Forward.
    SpeedbrakeForward(bool),
    /// China hat three-way switch Backward.
    ChinaBackward(bool),
    /// China hat three-way switch Forward.
    ChinaForward(bool),
    /// APU (Auxiliary Power Unit) two-way switch
    /// - `true` - Start
    /// - `false` - Off
    Apu(bool),
    /// Radar Altimeter two-way switch (Altitude measurements)
    /// - `true` - Normal
    /// - `false` - Disabled
    RadarAltimeter(bool),
    /// Landing Gear Horn Silence Button
    LandingGearSilence(bool),
    /// EAC (Enhanced Attitude Control - Autopilot) two-way switch
    /// - `true` - Arm
    /// - `false` - Off
    Eac(bool),
    /// Autopilot Toggle Button
    AutopilotToggle(bool),
    /// Throttle button (Left)
    ThrottleButton(bool),
    /// Mouse delta position horizontal
    MouseX(T),
    /// Mouse delta position vertical
    MouseY(T),
    /// Mouse primary button
    Mouse(bool),
    /// Numbered or unlabeled programmable action buttons (If unlabelled,
    /// prefer numbering from left to right, upper to lower)
    Number(i8, bool),
    /// Back left grip button (upper if there are two)
    PaddleLeft(bool),
    /// Back right grip button (upper if there are two)
    PaddleRight(bool),
    /// Left Pinky Button / Back lower right grip button
    PinkyLeft(bool),
    /// Right Pinky Button / Back lower left grip button
    PinkyRight(bool),
    /// Context Menu Button on a mouse (Right Click)
    Context(bool),
    /// DPI Button on a mouse
    Dpi(bool),
    /// Scroll Wheel X on a mouse
    ScrollX(T),
    /// Scroll Wheel Y on a mouse
    ScrollY(T),
    /// Scroll Button on a mouse
    Scroll(bool),
    /// Horizontal axis under the action buttons
    ActionWheelX(T),
    /// Vertical axis under the action buttons
    ActionWheelY(T),
}

impl<T> Event<T> {
    /// The pressed state that a digital or numbered event carries; `None` for
    /// analog events and for a disconnect.
    pub open spec fn pressed_state(self) -> Option<bool> {
        match self {
            Event::Exit(p) => Some(p),
            Event::ActionA(p) => Some(p),
            Event::ActionB(p) => Some(p),
            Event::ActionC(p) => Some(p),
            Event::ActionH(p) => Some(p),
            Event::ActionV(p) => Some(p),
            Event::ActionD(p) => Some(p),
            Event::MenuL(p) => Some(p),
            Event::MenuR(p) => Some(p),
            Event::Joy(p) => Some(p),
            Event::Cam(p) => Some(p),
            Event::BumperL(p) => Some(p),
            Event::BumperR(p) => Some(p),
            Event::Up(p) => Some(p),
            Event::Down(p) => Some(p),
            Event::Left(p) => Some(p),
            Event::Right(p) => Some(p),
            Event::PovUp(p) => Some(p),
            Event::PovDown(p) => Some(p),
            Event::PovLeft(p) => Some(p),
            Event::PovRight(p) => Some(p),
            Event::HatUp(p) => Some(p),
            Event::HatDown(p) => Some(p),
            Event::HatLeft(p) => Some(p),
            Event::HatRight(p) => Some(p),
            Event::TrimUp(p) => Some(p),
            Event::TrimDown(p) => Some(p),
            Event::TrimLeft(p) => Some(p),
            Event::TrimRight(p) => Some(p),
            Event::MicUp(p) => Some(p),
            Event::MicDown(p) => Some(p),
            Event::MicLeft(p) => Some(p),
            Event::MicRight(p) => Some(p),
            Event::MicPush(p) => Some(p),
            Event::Trigger(p) => Some(p),
            Event::Bumper(p) => Some(p),
            Event::ActionM(p) => Some(p),
            Event::ActionL(p) => Some(p),
            Event::ActionR(p) => Some(p),
            Event::Pinky(p) => Some(p),
            Event::PinkyForward(p) => Some(p),
            Event::PinkyBackward(p) => Some(p),
            Event::FlapsUp(p) => Some(p),
            Event::FlapsDown(p) => Some(p),
            Event::BoatForward(p) => Some(p),
            Event::BoatBackward(p) => Some(p),
            Event::AutopilotPath(p) => Some(p),
            Event::AutopilotAlt(p) => Some(p),
            Event::EngineMotorL(p) => Some(p),
            Event::EngineMotorR(p) => Some(p),
            Event::EngineFuelFlowL(p) => Some(p),
            Event::EngineFuelFlowR(p) => Some(p),
            Event::EngineIgnitionL(p) => Some(p),
            Event::EngineIgnitionR(p) => Some(p),
            Event::SpeedbrakeBackward(p) => Some(p),
            Event::SpeedbrakeForward(p) => Some(p),
            Event::ChinaBackward(p) => Some(p),
            Event::ChinaForward(p) => Some(p),
            Event::Apu(p) => Some(p),
            Event::RadarAltimeter(p) => Some(p),
            Event::LandingGearSilence(p) => Some(p),
            Event::Eac(p) => Some(p),
            Event::AutopilotToggle(p) => Some(p),
            Event::ThrottleButton(p) => Some(p),
            Event::Mouse(p) => Some(p),
            Event::PaddleLeft(p) => Some(p),
            Event::PaddleRight(p) => Some(p),
            Event::PinkyLeft(p) => Some(p),
            Event::PinkyRight(p) => Some(p),
            Event::Context(p) => Some(p),
            Event::Dpi(p) => Some(p),
            Event::Scroll(p) => Some(p),
            Event::Number(_, p) => Some(p),
            _ => None,
        }
    }
}

/// The numeric conversion policy of an analog payload type: how a raw
/// 32-bit reading becomes a value of the type.
///
/// A type that holds every `i32` always converts; a narrower type gives
/// `None` for a reading it cannot represent, and that reading yields no event.
pub trait AxisValue: Sized {
    /// The value that `raw` converts to, if it fits.
    spec fn spec_from_raw(raw: i32) -> Option<Self>;

    /// Converts a raw reading.
    fn from_raw(raw: i32) -> (r: Option<Self>)
        ensures
            r == Self::spec_from_raw(raw),
    ;
}

impl AxisValue for i32 {
    open spec fn spec_from_raw(raw: i32) -> Option<i32> {
        Some(raw)
    }

    fn from_raw(raw: i32) -> (r: Option<i32>) {
        Some(raw)
    }
}

impl AxisValue for i64 {
    open spec fn spec_from_raw(raw: i32) -> Option<i64> {
        Some(raw as i64)
    }

    fn from_raw(raw: i32) -> (r: Option<i64>) {
        Some(i64::from(raw))
    }
}

impl AxisValue for i128 {
    open spec fn spec_from_raw(raw: i32) -> Option<i128> {
        Some(raw as i128)
    }

    fn from_raw(raw: i32) -> (r: Option<i128>) {
        Some(i128::from(raw))
    }
}

impl AxisValue for i16 {
    open spec fn spec_from_raw(raw: i32) -> Option<i16> {
        if i16::MIN <= raw <= i16::MAX {
            Some(raw as i16)
        } else {
            None
        }
    }

    fn from_raw(raw: i32) -> (r: Option<i16>) {
        match i16::try_from(raw) {
            Ok(v) => Some(v),
            Err(_) => None,
        }
    }
}

impl AxisValue for i8 {
    open spec fn spec_from_raw(raw: i32) -> Option<i8> {
        if i8::MIN <= raw <= i8::MAX {
            Some(raw as i8)
        } else {
            None
        }
    }

    fn from_raw(raw: i32) -> (r: Option<i8>) {
        match i8::try_from(raw) {
            Ok(v) => Some(v),
            Err(_) => None,
        }
    }
}

impl AxisValue for u64 {
    open spec fn spec_from_raw(raw: i32) -> Option<u64> {
        if 0 <= raw {
            Some(raw as u64)
        } else {
            None
        }
    }

    fn from_raw(raw: i32) -> (r: Option<u64>) {
        match u64::try_from(raw) {
            Ok(v) => Some(v),
            Err(_) => None,
        }
    }
}

impl AxisValue for u32 {
    open spec fn spec_from_raw(raw: i32) -> Option<u32> {
        if 0 <= raw {
            Some(raw as u32)
        } else {
            None
        }
    }

    fn from_raw(raw: i32) -> (r: Option<u32>) {
        match u32::try_from(raw) {
            Ok(v) => Some(v),
            Err(_) => None,
        }
    }
}

impl AxisValue for u16 {
    open spec fn spec_from_raw(raw: i32) -> Option<u16> {
        if 0 <= raw <= u16::MAX {
            Some(raw as u16)
        } else {
            None
        }
    }

    fn from_raw(raw: i32) -> (r: Option<u16>) {
        match u16::try_from(raw) {
            Ok(v) => Some(v),
            Err(_) => None,
        }
    }
}

impl AxisValue for u8 {
    open spec fn spec_from_raw(raw: i32) -> Option<u8> {
        if 0 <= raw <= u8::MAX {
            Some(raw as u8)
        } else {
            None
        }
    }

    fn from_raw(raw: i32) -> (r: Option<u8>) {
        match u8::try_from(raw) {
            Ok(v) => Some(v),
            Err(_) => None,
        }
    }
}

} // verus!
