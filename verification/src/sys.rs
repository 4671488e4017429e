//! The enumerations and plain records of the runtime's C interface.
//!
//! Across the boundary an enumeration is a number. `code` gives the number of
//! a variant and `from_code` finds the variant of a number, if there is one,
//! so that a number the runtime made up is never taken for a variant.

#![allow(non_camel_case_types)]
#![allow(non_snake_case)]

use vstd::prelude::*;

verus! {

/// Index of a tracked device.
pub type TrackedDeviceIndex_t = u32;

/// Raw payload of an event.
pub type VREvent_Data_t = [u8; 16];

/// Handle of an overlay.
pub type VROverlayHandle_t = u64;

/// Identifier of a notification.
pub type VRNotificationId = u32;

/// One of the two eyes of a headset.
#[derive(Debug, Clone, Copy, PartialEq, Eq, Structural)]
pub enum Hmd_Eye {
    Left,
    Right,
}

impl Hmd_Eye {
    /// The number that stands for this variant in the C interface.
    pub open spec fn discriminant(self) -> u32 {
        match self {
            Hmd_Eye::Left => 0,
            Hmd_Eye::Right => 1,
        }
    }

    /// The number that stands for this variant in the C interface.
    pub fn code(self) -> (code: u32)
        ensures
            code == self.discriminant(),
    {
        match self {
            Hmd_Eye::Left => 0,
            Hmd_Eye::Right => 1,
        }
    }

    /// The variant that `code` stands for; none where it stands for no
    /// variant.
    pub fn from_code(code: u32) -> (found: Option<Self>)
        ensures
            found matches Some(variant) ==> variant.discriminant() == code,
            found is None ==> forall|variant: Self| variant.discriminant() != code,
    {
        match code {
            0 => Some(Hmd_Eye::Left),
            1 => Some(Hmd_Eye::Right),
            _ => None,
        }
    }
}

/// Which graphics interface a projection is laid out for.
#[derive(Debug, Clone, Copy, PartialEq, Eq, Structural)]
pub enum GraphicsAPIConvention {
    DirectX,
    OpenGL,
}

impl GraphicsAPIConvention {
    /// The number that stands for this variant in the C interface.
    pub open spec fn discriminant(self) -> u32 {
        match self {
            GraphicsAPIConvention::DirectX => 0,
            GraphicsAPIConvention::OpenGL => 1,
        }
    }

    /// The number that stands for this variant in the C interface.
    pub fn code(self) -> (code: u32)
        ensures
            code == self.discriminant(),
    {
        match self {
            GraphicsAPIConvention::DirectX => 0,
            GraphicsAPIConvention::OpenGL => 1,
        }
    }

    /// The variant that `code` stands for; none where it stands for no
    /// variant.
    pub fn from_code(code: u32) -> (found: Option<Self>)
        ensures
            found matches Some(variant) ==> variant.discriminant() == code,
            found is None ==> forall|variant: Self| variant.discriminant() != code,
    {
        match code {
            0 => Some(GraphicsAPIConvention::DirectX),
            1 => Some(GraphicsAPIConvention::OpenGL),
            _ => None,
        }
    }
}

/// How well a device is tracked.
#[derive(Debug, Clone, Copy, PartialEq, Eq, Structural)]
pub enum HmdTrackingResult {
    Uninitialized,
    Calibrating_InProgress,
    Calibrating_OutOfRange,
    Running_OK,
    Running_OutOfRange,
}

impl HmdTrackingResult {
    /// The number that stands for this variant in the C interface.
    pub open spec fn discriminant(self) -> u32 {
        match self {
            HmdTrackingResult::Uninitialized => 1,
            HmdTrackingResult::Calibrating_InProgress => 100,
            HmdTrackingResult::Calibrating_OutOfRange => 101,
            HmdTrackingResult::Running_OK => 200,
            HmdTrackingResult::Running_OutOfRange => 201,
        }
    }

    /// The number that stands for this variant in the C interface.
    pub fn code(self) -> (code: u32)
        ensures
            code == self.discriminant(),
    {
        match self {
            HmdTrackingResult::Uninitialized => 1,
            HmdTrackingResult::Calibrating_InProgress => 100,
            HmdTrackingResult::Calibrating_OutOfRange => 101,
            HmdTrackingResult::Running_OK => 200,
            HmdTrackingResult::Running_OutOfRange => 201,
        }
    }

    /// The variant that `code` stands for; none where it stands for no
    /// variant.
    pub fn from_code(code: u32) -> (found: Option<Self>)
        ensures
            found matches Some(variant) ==> variant.discriminant() == code,
            found is None ==> forall|variant: Self| variant.discriminant() != code,
    {
        match code {
            1 => Some(HmdTrackingResult::Uninitialized),
            100 => Some(HmdTrackingResult::Calibrating_InProgress),
            101 => Some(HmdTrackingResult::Calibrating_OutOfRange),
            200 => Some(HmdTrackingResult::Running_OK),
            201 => Some(HmdTrackingResult::Running_OutOfRange),
            _ => None,
        }
    }
}

/// What kind of device is tracked.
#[derive(Debug, Clone, Copy, PartialEq, Eq, Structural)]
pub enum TrackedDeviceClass {
    Invalid,
    HMD,
    Controller,
    TrackingReference,
    Other,
}

impl TrackedDeviceClass {
    /// The number that stands for this variant in the C interface.
    pub open spec fn discriminant(self) -> u32 {
        match self {
            TrackedDeviceClass::Invalid => 0,
            TrackedDeviceClass::HMD => 1,
            TrackedDeviceClass::Controller => 2,
            TrackedDeviceClass::TrackingReference => 4,
            TrackedDeviceClass::Other => 1000,
        }
    }

    /// The number that stands for this variant in the C interface.
    pub fn code(self) -> (code: u32)
        ensures
            code == self.discriminant(),
    {
        match self {
            TrackedDeviceClass::Invalid => 0,
            TrackedDeviceClass::HMD => 1,
            TrackedDeviceClass::Controller => 2,
            TrackedDeviceClass::TrackingReference => 4,
            TrackedDeviceClass::Other => 1000,
        }
    }

    /// The variant that `code` stands for; none where it stands for no
    /// variant.
    pub fn from_code(code: u32) -> (found: Option<Self>)
        ensures
            found matches Some(variant) ==> variant.discriminant() == code,
            found is None ==> forall|variant: Self| variant.discriminant() != code,
    {
        match code {
            0 => Some(TrackedDeviceClass::Invalid),
            1 => Some(TrackedDeviceClass::HMD),
            2 => Some(TrackedDeviceClass::Controller),
            4 => Some(TrackedDeviceClass::TrackingReference),
            1000 => Some(TrackedDeviceClass::Other),
            _ => None,
        }
    }
}

/// Where the origin of a pose lies.
#[derive(Debug, Clone, Copy, PartialEq, Eq, Structural)]
pub enum TrackingUniverseOrigin {
    TrackingUniverseSeated,
    TrackingUniverseStanding,
    TrackingUniverseRawAndUncalibrated,
}

impl TrackingUniverseOrigin {
    /// The number that stands for this variant in the C interface.
    pub open spec fn discriminant(self) -> u32 {
        match self {
            TrackingUniverseOrigin::TrackingUniverseSeated => 0,
            TrackingUniverseOrigin::TrackingUniverseStanding => 1,
            TrackingUniverseOrigin::TrackingUniverseRawAndUncalibrated => 2,
        }
    }

    /// The number that stands for this variant in the C interface.
    pub fn code(self) -> (code: u32)
        ensures
            code == self.discriminant(),
    {
        match self {
            TrackingUniverseOrigin::TrackingUniverseSeated => 0,
            TrackingUniverseOrigin::TrackingUniverseStanding => 1,
            TrackingUniverseOrigin::TrackingUniverseRawAndUncalibrated => 2,
        }
    }

    /// The variant that `code` stands for; none where it stands for no
    /// variant.
    pub fn from_code(code: u32) -> (found: Option<Self>)
        ensures
            found matches Some(variant) ==> variant.discriminant() == code,
            found is None ==> forall|variant: Self| variant.discriminant() != code,
    {
        match code {
            0 => Some(TrackingUniverseOrigin::TrackingUniverseSeated),
            1 => Some(TrackingUniverseOrigin::TrackingUniverseStanding),
            2 => Some(TrackingUniverseOrigin::TrackingUniverseRawAndUncalibrated),
            _ => None,
        }
    }
}

/// A property of a tracked device; its name ends in the type of its value.
#[derive(Debug, Clone, Copy, PartialEq, Eq, Structural)]
pub enum TrackedDeviceProperty {
    TrackingSystemName_String,
    ModelNumber_String,
    SerialNumber_String,
    RenderModelName_String,
    WillDriftInYaw_Bool,
    ManufacturerName_String,
    TrackingFirmwareVersion_String,
    HardwareRevision_String,
    AllWirelessDongleDescriptions_String,
    ConnectedWirelessDongle_String,
    ReportsTimeSinceVSync_Bool,
    SecondsFromVsyncToPhotons_Float,
    DisplayFrequency_Float,
    UserIpdMeters_Float,
    CurrentUniverseId_Uint64,
    PreviousUniverseId_Uint64,
    DisplayFirmwareVersion_String,
    IsOnDesktop_Bool,
    AttachedDeviceId_String,
    SupportedButtons_Uint64,
    Axis0Type_Int32,
    Axis1Type_Int32,
    Axis2Type_Int32,
    Axis3Type_Int32,
    Axis4Type_Int32,
    FieldOfViewLeftDegrees_Float,
    FieldOfViewRightDegrees_Float,
    FieldOfViewTopDegrees_Float,
    FieldOfViewBottomDegrees_Float,
    TrackingRangeMinimumMeters_Float,
    TrackingRangeMaximumMeters_Float,
}

impl TrackedDeviceProperty {
    /// The number that stands for this variant in the C interface.
    pub open spec fn discriminant(self) -> u32 {
        match self {
            TrackedDeviceProperty::TrackingSystemName_String => 1000,
            TrackedDeviceProperty::ModelNumber_String => 1001,
            TrackedDeviceProperty::SerialNumber_String => 1002,
            TrackedDeviceProperty::RenderModelName_String => 1003,
            TrackedDeviceProperty::WillDriftInYaw_Bool => 1004,
            TrackedDeviceProperty::ManufacturerName_String => 1005,
            TrackedDeviceProperty::TrackingFirmwareVersion_String => 1006,
            TrackedDeviceProperty::HardwareRevision_String => 1007,
            TrackedDeviceProperty::AllWirelessDongleDescriptions_String => 1008,
            TrackedDeviceProperty::ConnectedWirelessDongle_String => 1009,
            TrackedDeviceProperty::ReportsTimeSinceVSync_Bool => 2000,
            TrackedDeviceProperty::SecondsFromVsyncToPhotons_Float => 2001,
            TrackedDeviceProperty::DisplayFrequency_Float => 2002,
            TrackedDeviceProperty::UserIpdMeters_Float => 2003,
            TrackedDeviceProperty::CurrentUniverseId_Uint64 => 2004,
            TrackedDeviceProperty::PreviousUniverseId_Uint64 => 2005,
            TrackedDeviceProperty::DisplayFirmwareVersion_String => 2006,
            TrackedDeviceProperty::IsOnDesktop_Bool => 2007,
            TrackedDeviceProperty::AttachedDeviceId_String => 3000,
            TrackedDeviceProperty::SupportedButtons_Uint64 => 3001,
            TrackedDeviceProperty::Axis0Type_Int32 => 3002,
            TrackedDeviceProperty::Axis1Type_Int32 => 3003,
            TrackedDeviceProperty::Axis2Type_Int32 => 3004,
            TrackedDeviceProperty::Axis3Type_Int32 => 3005,
            TrackedDeviceProperty::Axis4Type_Int32 => 3006,
            TrackedDeviceProperty::FieldOfViewLeftDegrees_Float => 4000,
            TrackedDeviceProperty::FieldOfViewRightDegrees_Float => 4001,
            TrackedDeviceProperty::FieldOfViewTopDegrees_Float => 4002,
            TrackedDeviceProperty::FieldOfViewBottomDegrees_Float => 4003,
            TrackedDeviceProperty::TrackingRangeMinimumMeters_Float => 4004,
            TrackedDeviceProperty::TrackingRangeMaximumMeters_Float => 4005,
        }
    }

    /// The number that stands for this variant in the C interface.
    pub fn code(self) -> (code: u32)
        ensures
            code == self.discriminant(),
    {
        match self {
            TrackedDeviceProperty::TrackingSystemName_String => 1000,
            TrackedDeviceProperty::ModelNumber_String => 1001,
            TrackedDeviceProperty::SerialNumber_String => 1002,
            TrackedDeviceProperty::RenderModelName_String => 1003,
            TrackedDeviceProperty::WillDriftInYaw_Bool => 1004,
            TrackedDeviceProperty::ManufacturerName_String => 1005,
            TrackedDeviceProperty::TrackingFirmwareVersion_String => 1006,
            TrackedDeviceProperty::HardwareRevision_String => 1007,
            TrackedDeviceProperty::AllWirelessDongleDescriptions_String => 1008,
            TrackedDeviceProperty::ConnectedWirelessDongle_String => 1009,
            TrackedDeviceProperty::ReportsTimeSinceVSync_Bool => 2000,
            TrackedDeviceProperty::SecondsFromVsyncToPhotons_Float => 2001,
            TrackedDeviceProperty::DisplayFrequency_Float => 2002,
            TrackedDeviceProperty::UserIpdMeters_Float => 2003,
            TrackedDeviceProperty::CurrentUniverseId_Uint64 => 2004,
            TrackedDeviceProperty::PreviousUniverseId_Uint64 => 2005,
            TrackedDeviceProperty::DisplayFirmwareVersion_String => 2006,
            TrackedDeviceProperty::IsOnDesktop_Bool => 2007,
            TrackedDeviceProperty::AttachedDeviceId_String => 3000,
            TrackedDeviceProperty::SupportedButtons_Uint64 => 3001,
            TrackedDeviceProperty::Axis0Type_Int32 => 3002,
            TrackedDeviceProperty::Axis1Type_Int32 => 3003,
            TrackedDeviceProperty::Axis2Type_Int32 => 3004,
            TrackedDeviceProperty::Axis3Type_Int32 => 3005,
            TrackedDeviceProperty::Axis4Type_Int32 => 3006,
            TrackedDeviceProperty::FieldOfViewLeftDegrees_Float => 4000,
            TrackedDeviceProperty::FieldOfViewRightDegrees_Float => 4001,
            TrackedDeviceProperty::FieldOfViewTopDegrees_Float => 4002,
            TrackedDeviceProperty::FieldOfViewBottomDegrees_Float => 4003,
            TrackedDeviceProperty::TrackingRangeMinimumMeters_Float => 4004,
            TrackedDeviceProperty::TrackingRangeMaximumMeters_Float => 4005,
        }
    }

    /// The variant that `code` stands for; none where it stands for no
    /// variant.
    pub fn from_code(code: u32) -> (found: Option<Self>)
        ensures
            found matches Some(variant) ==> variant.discriminant() == code,
            found is None ==> forall|variant: Self| variant.discriminant() != code,
    {
        match code {
            1000 => Some(TrackedDeviceProperty::TrackingSystemName_String),
            1001 => Some(TrackedDeviceProperty::ModelNumber_String),
            1002 => Some(TrackedDeviceProperty::SerialNumber_String),
            1003 => Some(TrackedDeviceProperty::RenderModelName_String),
            1004 => Some(TrackedDeviceProperty::WillDriftInYaw_Bool),
            1005 => Some(TrackedDeviceProperty::ManufacturerName_String),
            1006 => Some(TrackedDeviceProperty::TrackingFirmwareVersion_String),
            1007 => Some(TrackedDeviceProperty::HardwareRevision_String),
            1008 => Some(TrackedDeviceProperty::AllWirelessDongleDescriptions_String),
            1009 => Some(TrackedDeviceProperty::ConnectedWirelessDongle_String),
            2000 => Some(TrackedDeviceProperty::ReportsTimeSinceVSync_Bool),
            2001 => Some(TrackedDeviceProperty::SecondsFromVsyncToPhotons_Float),
            2002 => Some(TrackedDeviceProperty::DisplayFrequency_Float),
            2003 => Some(TrackedDeviceProperty::UserIpdMeters_Float),
            2004 => Some(TrackedDeviceProperty::CurrentUniverseId_Uint64),
            2005 => Some(TrackedDeviceProperty::PreviousUniverseId_Uint64),
            2006 => Some(TrackedDeviceProperty::DisplayFirmwareVersion_String),
            2007 => Some(TrackedDeviceProperty::IsOnDesktop_Bool),
            3000 => Some(TrackedDeviceProperty::AttachedDeviceId_String),
            3001 => Some(TrackedDeviceProperty::SupportedButtons_Uint64),
            3002 => Some(TrackedDeviceProperty::Axis0Type_Int32),
            3003 => Some(TrackedDeviceProperty::Axis1Type_Int32),
            3004 => Some(TrackedDeviceProperty::Axis2Type_Int32),
            3005 => Some(TrackedDeviceProperty::Axis3Type_Int32),
            3006 => Some(TrackedDeviceProperty::Axis4Type_Int32),
            4000 => Some(TrackedDeviceProperty::FieldOfViewLeftDegrees_Float),
            4001 => Some(TrackedDeviceProperty::FieldOfViewRightDegrees_Float),
            4002 => Some(TrackedDeviceProperty::FieldOfViewTopDegrees_Float),
            4003 => Some(TrackedDeviceProperty::FieldOfViewBottomDegrees_Float),
            4004 => Some(TrackedDeviceProperty::TrackingRangeMinimumMeters_Float),
            4005 => Some(TrackedDeviceProperty::TrackingRangeMaximumMeters_Float),
            _ => None,
        }
    }
}

/// How reading a property of a tracked device ended.
#[derive(Debug, Clone, Copy, PartialEq, Eq, Structural)]
pub enum TrackedPropertyError {
    Success,
    WrongDataType,
    WrongDeviceClass,
    BufferTooSmall,
    UnknownProperty,
    InvalidDevice,
    CouldNotContactServer,
    ValueNotProvidedByDevice,
    StringExceedsMaximumLength,
}

impl TrackedPropertyError {
    /// The number that stands for this variant in the C interface.
    pub open spec fn discriminant(self) -> u32 {
        match self {
            TrackedPropertyError::Success => 0,
            TrackedPropertyError::WrongDataType => 1,
            TrackedPropertyError::WrongDeviceClass => 2,
            TrackedPropertyError::BufferTooSmall => 3,
            TrackedPropertyError::UnknownProperty => 4,
            TrackedPropertyError::InvalidDevice => 5,
            TrackedPropertyError::CouldNotContactServer => 6,
            TrackedPropertyError::ValueNotProvidedByDevice => 7,
            TrackedPropertyError::StringExceedsMaximumLength => 8,
        }
    }

    /// The number that stands for this variant in the C interface.
    pub fn code(self) -> (code: u32)
        ensures
            code == self.discriminant(),
    {
        match self {
            TrackedPropertyError::Success => 0,
            TrackedPropertyError::WrongDataType => 1,
            TrackedPropertyError::WrongDeviceClass => 2,
            TrackedPropertyError::BufferTooSmall => 3,
            TrackedPropertyError::UnknownProperty => 4,
            TrackedPropertyError::InvalidDevice => 5,
            TrackedPropertyError::CouldNotContactServer => 6,
            TrackedPropertyError::ValueNotProvidedByDevice => 7,
            TrackedPropertyError::StringExceedsMaximumLength => 8,
        }
    }

    /// The variant that `code` stands for; none where it stands for no
    /// variant.
    pub fn from_code(code: u32) -> (found: Option<Self>)
        ensures
            found matches Some(variant) ==> variant.discriminant() == code,
            found is None ==> forall|variant: Self| variant.discriminant() != code,
    {
        match code {
            0 => Some(TrackedPropertyError::Success),
            1 => Some(TrackedPropertyError::WrongDataType),
            2 => Some(TrackedPropertyError::WrongDeviceClass),
            3 => Some(TrackedPropertyError::BufferTooSmall),
            4 => Some(TrackedPropertyError::UnknownProperty),
            5 => Some(TrackedPropertyError::InvalidDevice),
            6 => Some(TrackedPropertyError::CouldNotContactServer),
            7 => Some(TrackedPropertyError::ValueNotProvidedByDevice),
            8 => Some(TrackedPropertyError::StringExceedsMaximumLength),
            _ => None,
        }
    }
}

/// What an event of the runtime reports.
#[derive(Debug, Clone, Copy, PartialEq, Eq, Structural)]
pub enum EVREventType {
    VREvent_None,
    TrackedDeviceActivated,
    TrackedDeviceDeactivated,
    TrackedDeviceUpdated,
    ButtonPress,
    ButtonUnpress,
    ButtonTouch,
    ButtonUntouch,
    MouseMove,
    MouseButtonDown,
    MouseButtonUp,
    InputFocusCaptured,
    InputFocusReleased,
    SceneFocusLost,
    SceneFocusGained,
    OverlayShown,
    OverlayHidden,
    SystemOverlayActivated,
    SystemOverlayDeactivated,
    SystemOverlayThumbSelected,
    Notification_Dismissed,
    Notification_BeginInteraction,
    Notification_Scroll,
    Notification_ClickOn,
    Notification_ClickOff,
}

impl EVREventType {
    /// The number that stands for this variant in the C interface.
    pub open spec fn discriminant(self) -> u32 {
        match self {
            EVREventType::VREvent_None => 0,
            EVREventType::TrackedDeviceActivated => 100,
            EVREventType::TrackedDeviceDeactivated => 101,
            EVREventType::TrackedDeviceUpdated => 102,
            EVREventType::ButtonPress => 200,
            EVREventType::ButtonUnpress => 201,
            EVREventType::ButtonTouch => 202,
            EVREventType::ButtonUntouch => 203,
            EVREventType::MouseMove => 300,
            EVREventType::MouseButtonDown => 301,
            EVREventType::MouseButtonUp => 302,
            EVREventType::InputFocusCaptured => 400,
            EVREventType::InputFocusReleased => 401,
            EVREventType::SceneFocusLost => 402,
            EVREventType::SceneFocusGained => 403,
            EVREventType::OverlayShown => 500,
            EVREventType::OverlayHidden => 501,
            EVREventType::SystemOverlayActivated => 502,
            EVREventType::SystemOverlayDeactivated => 503,
            EVREventType::SystemOverlayThumbSelected => 504,
            EVREventType::Notification_Dismissed => 600,
            EVREventType::Notification_BeginInteraction => 601,
            EVREventType::Notification_Scroll => 602,
            EVREventType::Notification_ClickOn => 603,
            EVREventType::Notification_ClickOff => 604,
        }
    }

    /// The number that stands for this variant in the C interface.
    pub fn code(self) -> (code: u32)
        ensures
            code == self.discriminant(),
    {
        match self {
            EVREventType::VREvent_None => 0,
            EVREventType::TrackedDeviceActivated => 100,
            EVREventType::TrackedDeviceDeactivated => 101,
            EVREventType::TrackedDeviceUpdated => 102,
            EVREventType::ButtonPress => 200,
            EVREventType::ButtonUnpress => 201,
            EVREventType::ButtonTouch => 202,
            EVREventType::ButtonUntouch => 203,
            EVREventType::MouseMove => 300,
            EVREventType::MouseButtonDown => 301,
            EVREventType::MouseButtonUp => 302,
            EVREventType::InputFocusCaptured => 400,
            EVREventType::InputFocusReleased => 401,
            EVREventType::SceneFocusLost => 402,
            EVREventType::SceneFocusGained => 403,
            EVREventType::OverlayShown => 500,
            EVREventType::OverlayHidden => 501,
            EVREventType::SystemOverlayActivated => 502,
            EVREventType::SystemOverlayDeactivated => 503,
            EVREventType::SystemOverlayThumbSelected => 504,
            EVREventType::Notification_Dismissed => 600,
            EVREventType::Notification_BeginInteraction => 601,
            EVREventType::Notification_Scroll => 602,
            EVREventType::Notification_ClickOn => 603,
            EVREventType::Notification_ClickOff => 604,
        }
    }

    /// The variant that `code` stands for; none where it stands for no
    /// variant.
    pub fn from_code(code: u32) -> (found: Option<Self>)
        ensures
            found matches Some(variant) ==> variant.discriminant() == code,
            found is None ==> forall|variant: Self| variant.discriminant() != code,
    {
        match code {
            0 => Some(EVREventType::VREvent_None),
            100 => Some(EVREventType::TrackedDeviceActivated),
            101 => Some(EVREventType::TrackedDeviceDeactivated),
            102 => Some(EVREventType::TrackedDeviceUpdated),
            200 => Some(EVREventType::ButtonPress),
            201 => Some(EVREventType::ButtonUnpress),
            202 => Some(EVREventType::ButtonTouch),
            203 => Some(EVREventType::ButtonUntouch),
            300 => Some(EVREventType::MouseMove),
            301 => Some(EVREventType::MouseButtonDown),
            302 => Some(EVREventType::MouseButtonUp),
            400 => Some(EVREventType::InputFocusCaptured),
            401 => Some(EVREventType::InputFocusReleased),
            402 => Some(EVREventType::SceneFocusLost),
            403 => Some(EVREventType::SceneFocusGained),
            500 => Some(EVREventType::OverlayShown),
            501 => Some(EVREventType::OverlayHidden),
            502 => Some(EVREventType::SystemOverlayActivated),
            503 => Some(EVREventType::SystemOverlayDeactivated),
            504 => Some(EVREventType::SystemOverlayThumbSelected),
            600 => Some(EVREventType::Notification_Dismissed),
            601 => Some(EVREventType::Notification_BeginInteraction),
            602 => Some(EVREventType::Notification_Scroll),
            603 => Some(EVREventType::Notification_ClickOn),
            604 => Some(EVREventType::Notification_ClickOff),
            _ => None,
        }
    }
}

/// A button or axis of a controller.
#[derive(Debug, Clone, Copy, PartialEq, Eq, Structural)]
pub enum EVRButtonId {
    EButton_System,
    EButton_ApplicationMenu,
    EButton_Grip,
    EButton_Axis0,
    EButton_Axis1,
    EButton_Axis2,
    EButton_Axis3,
    EButton_Axis4,
    EButton_Max,
}

impl EVRButtonId {
    /// The number that stands for this variant in the C interface.
    pub open spec fn discriminant(self) -> u32 {
        match self {
            EVRButtonId::EButton_System => 0,
            EVRButtonId::EButton_ApplicationMenu => 1,
            EVRButtonId::EButton_Grip => 2,
            EVRButtonId::EButton_Axis0 => 32,
            EVRButtonId::EButton_Axis1 => 33,
            EVRButtonId::EButton_Axis2 => 34,
            EVRButtonId::EButton_Axis3 => 35,
            EVRButtonId::EButton_Axis4 => 36,
            EVRButtonId::EButton_Max => 64,
        }
    }

    /// The number that stands for this variant in the C interface.
    pub fn code(self) -> (code: u32)
        ensures
            code == self.discriminant(),
    {
        match self {
            EVRButtonId::EButton_System => 0,
            EVRButtonId::EButton_ApplicationMenu => 1,
            EVRButtonId::EButton_Grip => 2,
            EVRButtonId::EButton_Axis0 => 32,
            EVRButtonId::EButton_Axis1 => 33,
            EVRButtonId::EButton_Axis2 => 34,
            EVRButtonId::EButton_Axis3 => 35,
            EVRButtonId::EButton_Axis4 => 36,
            EVRButtonId::EButton_Max => 64,
        }
    }

    /// The variant that `code` stands for; none where it stands for no
    /// variant.
    pub fn from_code(code: u32) -> (found: Option<Self>)
        ensures
            found matches Some(variant) ==> variant.discriminant() == code,
            found is None ==> forall|variant: Self| variant.discriminant() != code,
    {
        match code {
            0 => Some(EVRButtonId::EButton_System),
            1 => Some(EVRButtonId::EButton_ApplicationMenu),
            2 => Some(EVRButtonId::EButton_Grip),
            32 => Some(EVRButtonId::EButton_Axis0),
            33 => Some(EVRButtonId::EButton_Axis1),
            34 => Some(EVRButtonId::EButton_Axis2),
            35 => Some(EVRButtonId::EButton_Axis3),
            36 => Some(EVRButtonId::EButton_Axis4),
            64 => Some(EVRButtonId::EButton_Max),
            _ => None,
        }
    }
}

/// A button of the simulated mouse.
#[derive(Debug, Clone, Copy, PartialEq, Eq, Structural)]
pub enum EVRMouseButton {
    Left,
    Right,
    Middle,
}

impl EVRMouseButton {
    /// The number that stands for this variant in the C interface.
    pub open spec fn discriminant(self) -> u32 {
        match self {
            EVRMouseButton::Left => 1,
            EVRMouseButton::Right => 2,
            EVRMouseButton::Middle => 4,
        }
    }

    /// The number that stands for this variant in the C interface.
    pub fn code(self) -> (code: u32)
        ensures
            code == self.discriminant(),
    {
        match self {
            EVRMouseButton::Left => 1,
            EVRMouseButton::Right => 2,
            EVRMouseButton::Middle => 4,
        }
    }

    /// The variant that `code` stands for; none where it stands for no
    /// variant.
    pub fn from_code(code: u32) -> (found: Option<Self>)
        ensures
            found matches Some(variant) ==> variant.discriminant() == code,
            found is None ==> forall|variant: Self| variant.discriminant() != code,
    {
        match code {
            1 => Some(EVRMouseButton::Left),
            2 => Some(EVRMouseButton::Right),
            4 => Some(EVRMouseButton::Middle),
            _ => None,
        }
    }
}

/// What kind of axis a controller offers.
#[derive(Debug, Clone, Copy, PartialEq, Eq, Structural)]
pub enum EVRControllerAxisType {
    eControllerAxis_None,
    eControllerAxis_TrackPad,
    eControllerAxis_Joystick,
    eControllerAxis_Trigger,
}

impl EVRControllerAxisType {
    /// The number that stands for this variant in the C interface.
    pub open spec fn discriminant(self) -> u32 {
        match self {
            EVRControllerAxisType::eControllerAxis_None => 0,
            EVRControllerAxisType::eControllerAxis_TrackPad => 1,
            EVRControllerAxisType::eControllerAxis_Joystick => 2,
            EVRControllerAxisType::eControllerAxis_Trigger => 3,
        }
    }

    /// The number that stands for this variant in the C interface.
    pub fn code(self) -> (code: u32)
        ensures
            code == self.discriminant(),
    {
        match self {
            EVRControllerAxisType::eControllerAxis_None => 0,
            EVRControllerAxisType::eControllerAxis_TrackPad => 1,
            EVRControllerAxisType::eControllerAxis_Joystick => 2,
            EVRControllerAxisType::eControllerAxis_Trigger => 3,
        }
    }

    /// The variant that `code` stands for; none where it stands for no
    /// variant.
    pub fn from_code(code: u32) -> (found: Option<Self>)
        ensures
            found matches Some(variant) ==> variant.discriminant() == code,
            found is None ==> forall|variant: Self| variant.discriminant() != code,
    {
        match code {
            0 => Some(EVRControllerAxisType::eControllerAxis_None),
            1 => Some(EVRControllerAxisType::eControllerAxis_TrackPad),
            2 => Some(EVRControllerAxisType::eControllerAxis_Joystick),
            3 => Some(EVRControllerAxisType::eControllerAxis_Trigger),
            _ => None,
        }
    }
}

/// How controller input is passed on.
#[derive(Debug, Clone, Copy, PartialEq, Eq, Structural)]
pub enum EVRControllerEventOutputType {
    OSEvents,
    VREvents,
}

impl EVRControllerEventOutputType {
    /// The number that stands for this variant in the C interface.
    pub open spec fn discriminant(self) -> u32 {
        match self {
            EVRControllerEventOutputType::OSEvents => 0,
            EVRControllerEventOutputType::VREvents => 1,
        }
    }

    /// The number that stands for this variant in the C interface.
    pub fn code(self) -> (code: u32)
        ensures
            code == self.discriminant(),
    {
        match self {
            EVRControllerEventOutputType::OSEvents => 0,
            EVRControllerEventOutputType::VREvents => 1,
        }
    }

    /// The variant that `code` stands for; none where it stands for no
    /// variant.
    pub fn from_code(code: u32) -> (found: Option<Self>)
        ensures
            found matches Some(variant) ==> variant.discriminant() == code,
            found is None ==> forall|variant: Self| variant.discriminant() != code,
    {
        match code {
            0 => Some(EVRControllerEventOutputType::OSEvents),
            1 => Some(EVRControllerEventOutputType::VREvents),
            _ => None,
        }
    }
}

/// How the start-up of the runtime ended.
#[derive(Debug, Clone, Copy, PartialEq, Eq, Structural)]
pub enum HmdError {
    HmdError_None,
    Unknown,
    Init_InstallationNotFound,
    Init_InstallationCorrupt,
    Init_VRClientDLLNotFound,
    Init_FileNotFound,
    Init_FactoryNotFound,
    Init_InterfaceNotFound,
    Init_InvalidInterface,
    Init_UserConfigDirectoryInvalid,
    Init_HmdNotFound,
    Init_NotInitialized,
    Init_PathRegistryNotFound,
    Init_NoConfigPath,
    Init_NoLogPath,
    Init_PathRegistryNotWritable,
    Driver_Failed,
    Driver_Unknown,
    Driver_HmdUnknown,
    Driver_NotLoaded,
    Driver_RuntimeOutOfDate,
    Driver_HmdInUse,
    IPC_ServerInitFailed,
    IPC_ConnectFailed,
    IPC_SharedStateInitFailed,
    IPC_CompositorInitFailed,
    IPC_MutexInitFailed,
    VendorSpecific_UnableToConnectToOculusRuntime,
    Steam_SteamInstallationNotFound,
}

impl HmdError {
    /// The number that stands for this variant in the C interface.
    pub open spec fn discriminant(self) -> u32 {
        match self {
            HmdError::HmdError_None => 0,
            HmdError::Unknown => 1,
            HmdError::Init_InstallationNotFound => 100,
            HmdError::Init_InstallationCorrupt => 101,
            HmdError::Init_VRClientDLLNotFound => 102,
            HmdError::Init_FileNotFound => 103,
            HmdError::Init_FactoryNotFound => 104,
            HmdError::Init_InterfaceNotFound => 105,
            HmdError::Init_InvalidInterface => 106,
            HmdError::Init_UserConfigDirectoryInvalid => 107,
            HmdError::Init_HmdNotFound => 108,
            HmdError::Init_NotInitialized => 109,
            HmdError::Init_PathRegistryNotFound => 110,
            HmdError::Init_NoConfigPath => 111,
            HmdError::Init_NoLogPath => 112,
            HmdError::Init_PathRegistryNotWritable => 113,
            HmdError::Driver_Failed => 200,
            HmdError::Driver_Unknown => 201,
            HmdError::Driver_HmdUnknown => 202,
            HmdError::Driver_NotLoaded => 203,
            HmdError::Driver_RuntimeOutOfDate => 204,
            HmdError::Driver_HmdInUse => 205,
            HmdError::IPC_ServerInitFailed => 300,
            HmdError::IPC_ConnectFailed => 301,
            HmdError::IPC_SharedStateInitFailed => 302,
            HmdError::IPC_CompositorInitFailed => 303,
            HmdError::IPC_MutexInitFailed => 304,
            HmdError::VendorSpecific_UnableToConnectToOculusRuntime => 1000,
            HmdError::Steam_SteamInstallationNotFound => 2000,
        }
    }

    /// The number that stands for this variant in the C interface.
    pub fn code(self) -> (code: u32)
        ensures
            code == self.discriminant(),
    {
        match self {
            HmdError::HmdError_None => 0,
            HmdError::Unknown => 1,
            HmdError::Init_InstallationNotFound => 100,
            HmdError::Init_InstallationCorrupt => 101,
            HmdError::Init_VRClientDLLNotFound => 102,
            HmdError::Init_FileNotFound => 103,
            HmdError::Init_FactoryNotFound => 104,
            HmdError::Init_InterfaceNotFound => 105,
            HmdError::Init_InvalidInterface => 106,
            HmdError::Init_UserConfigDirectoryInvalid => 107,
            HmdError::Init_HmdNotFound => 108,
            HmdError::Init_NotInitialized => 109,
            HmdError::Init_PathRegistryNotFound => 110,
            HmdError::Init_NoConfigPath => 111,
            HmdError::Init_NoLogPath => 112,
            HmdError::Init_PathRegistryNotWritable => 113,
            HmdError::Driver_Failed => 200,
            HmdError::Driver_Unknown => 201,
            HmdError::Driver_HmdUnknown => 202,
            HmdError::Driver_NotLoaded => 203,
            HmdError::Driver_RuntimeOutOfDate => 204,
            HmdError::Driver_HmdInUse => 205,
            HmdError::IPC_ServerInitFailed => 300,
            HmdError::IPC_ConnectFailed => 301,
            HmdError::IPC_SharedStateInitFailed => 302,
            HmdError::IPC_CompositorInitFailed => 303,
            HmdError::IPC_MutexInitFailed => 304,
            HmdError::VendorSpecific_UnableToConnectToOculusRuntime => 1000,
            HmdError::Steam_SteamInstallationNotFound => 2000,
        }
    }

    /// The variant that `code` stands for; none where it stands for no
    /// variant.
    pub fn from_code(code: u32) -> (found: Option<Self>)
        ensures
            found matches Some(variant) ==> variant.discriminant() == code,
            found is None ==> forall|variant: Self| variant.discriminant() != code,
    {
        match code {
            0 => Some(HmdError::HmdError_None),
            1 => Some(HmdError::Unknown),
            100 => Some(HmdError::Init_InstallationNotFound),
            101 => Some(HmdError::Init_InstallationCorrupt),
            102 => Some(HmdError::Init_VRClientDLLNotFound),
            103 => Some(HmdError::Init_FileNotFound),
            104 => Some(HmdError::Init_FactoryNotFound),
            105 => Some(HmdError::Init_InterfaceNotFound),
            106 => Some(HmdError::Init_InvalidInterface),
            107 => Some(HmdError::Init_UserConfigDirectoryInvalid),
            108 => Some(HmdError::Init_HmdNotFound),
            109 => Some(HmdError::Init_NotInitialized),
            110 => Some(HmdError::Init_PathRegistryNotFound),
            111 => Some(HmdError::Init_NoConfigPath),
            112 => Some(HmdError::Init_NoLogPath),
            113 => Some(HmdError::Init_PathRegistryNotWritable),
            200 => Some(HmdError::Driver_Failed),
            201 => Some(HmdError::Driver_Unknown),
            202 => Some(HmdError::Driver_HmdUnknown),
            203 => Some(HmdError::Driver_NotLoaded),
            204 => Some(HmdError::Driver_RuntimeOutOfDate),
            205 => Some(HmdError::Driver_HmdInUse),
            300 => Some(HmdError::IPC_ServerInitFailed),
            301 => Some(HmdError::IPC_ConnectFailed),
            302 => Some(HmdError::IPC_SharedStateInitFailed),
            303 => Some(HmdError::IPC_CompositorInitFailed),
            304 => Some(HmdError::IPC_MutexInitFailed),
            1000 => Some(HmdError::VendorSpecific_UnableToConnectToOculusRuntime),
            2000 => Some(HmdError::Steam_SteamInstallationNotFound),
            _ => None,
        }
    }
}

/// How fetching a camera image ended.
#[derive(Debug, Clone, Copy, PartialEq, Eq, Structural)]
pub enum CameraImageResult {
    OK,
    Uninitalized,
    NotReady,
    SameFrame,
}

impl CameraImageResult {
    /// The number that stands for this variant in the C interface.
    pub open spec fn discriminant(self) -> u32 {
        match self {
            CameraImageResult::OK => 0,
            CameraImageResult::Uninitalized => 1,
            CameraImageResult::NotReady => 2,
            CameraImageResult::SameFrame => 3,
        }
    }

    /// The number that stands for this variant in the C interface.
    pub fn code(self) -> (code: u32)
        ensures
            code == self.discriminant(),
    {
        match self {
            CameraImageResult::OK => 0,
            CameraImageResult::Uninitalized => 1,
            CameraImageResult::NotReady => 2,
            CameraImageResult::SameFrame => 3,
        }
    }

    /// The variant that `code` stands for; none where it stands for no
    /// variant.
    pub fn from_code(code: u32) -> (found: Option<Self>)
        ensures
            found matches Some(variant) ==> variant.discriminant() == code,
            found is None ==> forall|variant: Self| variant.discriminant() != code,
    {
        match code {
            0 => Some(CameraImageResult::OK),
            1 => Some(CameraImageResult::Uninitalized),
            2 => Some(CameraImageResult::NotReady),
            3 => Some(CameraImageResult::SameFrame),
            _ => None,
        }
    }
}

/// State of the play-area calibration.
#[derive(Debug, Clone, Copy, PartialEq, Eq, Structural)]
pub enum ChaperoneCalibrationState {
    OK,
    Warning,
    Warning_BaseStationMayHaveMoved,
    Warning_BaseStationRemoved,
    Warning_SeatedBoundsInvalid,
    Error,
    Error_BaseStationUninitalized,
    Error_BaseStationConflict,
    Error_SoftBoundsInvalid,
    Error_HardBoundsInvalid,
}

impl ChaperoneCalibrationState {
    /// The number that stands for this variant in the C interface.
    pub open spec fn discriminant(self) -> u32 {
        match self {
            ChaperoneCalibrationState::OK => 1,
            ChaperoneCalibrationState::Warning => 100,
            ChaperoneCalibrationState::Warning_BaseStationMayHaveMoved => 101,
            ChaperoneCalibrationState::Warning_BaseStationRemoved => 102,
            ChaperoneCalibrationState::Warning_SeatedBoundsInvalid => 103,
            ChaperoneCalibrationState::Error => 200,
            ChaperoneCalibrationState::Error_BaseStationUninitalized => 201,
            ChaperoneCalibrationState::Error_BaseStationConflict => 202,
            ChaperoneCalibrationState::Error_SoftBoundsInvalid => 203,
            ChaperoneCalibrationState::Error_HardBoundsInvalid => 204,
        }
    }

    /// The number that stands for this variant in the C interface.
    pub fn code(self) -> (code: u32)
        ensures
            code == self.discriminant(),
    {
        match self {
            ChaperoneCalibrationState::OK => 1,
            ChaperoneCalibrationState::Warning => 100,
            ChaperoneCalibrationState::Warning_BaseStationMayHaveMoved => 101,
            ChaperoneCalibrationState::Warning_BaseStationRemoved => 102,
            ChaperoneCalibrationState::Warning_SeatedBoundsInvalid => 103,
            ChaperoneCalibrationState::Error => 200,
            ChaperoneCalibrationState::Error_BaseStationUninitalized => 201,
            ChaperoneCalibrationState::Error_BaseStationConflict => 202,
            ChaperoneCalibrationState::Error_SoftBoundsInvalid => 203,
            ChaperoneCalibrationState::Error_HardBoundsInvalid => 204,
        }
    }

    /// The variant that `code` stands for; none where it stands for no
    /// variant.
    pub fn from_code(code: u32) -> (found: Option<Self>)
        ensures
            found matches Some(variant) ==> variant.discriminant() == code,
            found is None ==> forall|variant: Self| variant.discriminant() != code,
    {
        match code {
            1 => Some(ChaperoneCalibrationState::OK),
            100 => Some(ChaperoneCalibrationState::Warning),
            101 => Some(ChaperoneCalibrationState::Warning_BaseStationMayHaveMoved),
            102 => Some(ChaperoneCalibrationState::Warning_BaseStationRemoved),
            103 => Some(ChaperoneCalibrationState::Warning_SeatedBoundsInvalid),
            200 => Some(ChaperoneCalibrationState::Error),
            201 => Some(ChaperoneCalibrationState::Error_BaseStationUninitalized),
            202 => Some(ChaperoneCalibrationState::Error_BaseStationConflict),
            203 => Some(ChaperoneCalibrationState::Error_SoftBoundsInvalid),
            204 => Some(ChaperoneCalibrationState::Error_HardBoundsInvalid),
            _ => None,
        }
    }
}

/// The graphics device that the compositor draws with.
#[derive(Debug, Clone, Copy, PartialEq, Eq, Structural)]
pub enum Compositor_DeviceType {
    DeviceType_None,
    DeviceType_D3D9,
    DeviceType_D3D9Ex,
    DeviceType_D3D10,
    DeviceType_D3D11,
    DeviceType_OpenGL,
}

impl Compositor_DeviceType {
    /// The number that stands for this variant in the C interface.
    pub open spec fn discriminant(self) -> u32 {
        match self {
            Compositor_DeviceType::DeviceType_None => 0,
            Compositor_DeviceType::DeviceType_D3D9 => 1,
            Compositor_DeviceType::DeviceType_D3D9Ex => 2,
            Compositor_DeviceType::DeviceType_D3D10 => 3,
            Compositor_DeviceType::DeviceType_D3D11 => 4,
            Compositor_DeviceType::DeviceType_OpenGL => 5,
        }
    }

    /// The number that stands for this variant in the C interface.
    pub fn code(self) -> (code: u32)
        ensures
            code == self.discriminant(),
    {
        match self {
            Compositor_DeviceType::DeviceType_None => 0,
            Compositor_DeviceType::DeviceType_D3D9 => 1,
            Compositor_DeviceType::DeviceType_D3D9Ex => 2,
            Compositor_DeviceType::DeviceType_D3D10 => 3,
            Compositor_DeviceType::DeviceType_D3D11 => 4,
            Compositor_DeviceType::DeviceType_OpenGL => 5,
        }
    }

    /// The variant that `code` stands for; none where it stands for no
    /// variant.
    pub fn from_code(code: u32) -> (found: Option<Self>)
        ensures
            found matches Some(variant) ==> variant.discriminant() == code,
            found is None ==> forall|variant: Self| variant.discriminant() != code,
    {
        match code {
            0 => Some(Compositor_DeviceType::DeviceType_None),
            1 => Some(Compositor_DeviceType::DeviceType_D3D9),
            2 => Some(Compositor_DeviceType::DeviceType_D3D9Ex),
            3 => Some(Compositor_DeviceType::DeviceType_D3D10),
            4 => Some(Compositor_DeviceType::DeviceType_D3D11),
            5 => Some(Compositor_DeviceType::DeviceType_OpenGL),
            _ => None,
        }
    }
}

/// How a call to the compositor ended.
#[derive(Debug, Clone, Copy, PartialEq, Eq, Structural)]
pub enum VRCompositorError {
    VRCompositorError_None,
    IncompatibleVersion,
    DoNotHaveFocus,
}

impl VRCompositorError {
    /// The number that stands for this variant in the C interface.
    pub open spec fn discriminant(self) -> u32 {
        match self {
            VRCompositorError::VRCompositorError_None => 0,
            VRCompositorError::IncompatibleVersion => 100,
            VRCompositorError::DoNotHaveFocus => 101,
        }
    }

    /// The number that stands for this variant in the C interface.
    pub fn code(self) -> (code: u32)
        ensures
            code == self.discriminant(),
    {
        match self {
            VRCompositorError::VRCompositorError_None => 0,
            VRCompositorError::IncompatibleVersion => 100,
            VRCompositorError::DoNotHaveFocus => 101,
        }
    }

    /// The variant that `code` stands for; none where it stands for no
    /// variant.
    pub fn from_code(code: u32) -> (found: Option<Self>)
        ensures
            found matches Some(variant) ==> variant.discriminant() == code,
            found is None ==> forall|variant: Self| variant.discriminant() != code,
    {
        match code {
            0 => Some(VRCompositorError::VRCompositorError_None),
            100 => Some(VRCompositorError::IncompatibleVersion),
            101 => Some(VRCompositorError::DoNotHaveFocus),
            _ => None,
        }
    }
}

/// How a call on an overlay ended.
#[derive(Debug, Clone, Copy, PartialEq, Eq, Structural)]
pub enum VROverlayError {
    VROverlayError_None,
    UnknownOverlay,
    InvalidHandle,
    PermissionDenied,
    OverlayLimitExceeded,
    WrongVisibilityType,
    KeyTooLong,
    NameTooLong,
    KeyInUse,
    WrongTransformType,
    InvalidTrackedDevice,
}

impl VROverlayError {
    /// The number that stands for this variant in the C interface.
    pub open spec fn discriminant(self) -> u32 {
        match self {
            VROverlayError::VROverlayError_None => 0,
            VROverlayError::UnknownOverlay => 10,
            VROverlayError::InvalidHandle => 11,
            VROverlayError::PermissionDenied => 12,
            VROverlayError::OverlayLimitExceeded => 13,
            VROverlayError::WrongVisibilityType => 14,
            VROverlayError::KeyTooLong => 15,
            VROverlayError::NameTooLong => 16,
            VROverlayError::KeyInUse => 17,
            VROverlayError::WrongTransformType => 18,
            VROverlayError::InvalidTrackedDevice => 19,
        }
    }

    /// The number that stands for this variant in the C interface.
    pub fn code(self) -> (code: u32)
        ensures
            code == self.discriminant(),
    {
        match self {
            VROverlayError::VROverlayError_None => 0,
            VROverlayError::UnknownOverlay => 10,
            VROverlayError::InvalidHandle => 11,
            VROverlayError::PermissionDenied => 12,
            VROverlayError::OverlayLimitExceeded => 13,
            VROverlayError::WrongVisibilityType => 14,
            VROverlayError::KeyTooLong => 15,
            VROverlayError::NameTooLong => 16,
            VROverlayError::KeyInUse => 17,
            VROverlayError::WrongTransformType => 18,
            VROverlayError::InvalidTrackedDevice => 19,
        }
    }

    /// The variant that `code` stands for; none where it stands for no
    /// variant.
    pub fn from_code(code: u32) -> (found: Option<Self>)
        ensures
            found matches Some(variant) ==> variant.discriminant() == code,
            found is None ==> forall|variant: Self| variant.discriminant() != code,
    {
        match code {
            0 => Some(VROverlayError::VROverlayError_None),
            10 => Some(VROverlayError::UnknownOverlay),
            11 => Some(VROverlayError::InvalidHandle),
            12 => Some(VROverlayError::PermissionDenied),
            13 => Some(VROverlayError::OverlayLimitExceeded),
            14 => Some(VROverlayError::WrongVisibilityType),
            15 => Some(VROverlayError::KeyTooLong),
            16 => Some(VROverlayError::NameTooLong),
            17 => Some(VROverlayError::KeyInUse),
            18 => Some(VROverlayError::WrongTransformType),
            19 => Some(VROverlayError::InvalidTrackedDevice),
            _ => None,
        }
    }
}

/// How an overlay takes input.
#[derive(Debug, Clone, Copy, PartialEq, Eq, Structural)]
pub enum VROverlayInputMethod {
    VROverlayInputMethod_None,
    Mouse,
}

impl VROverlayInputMethod {
    /// The number that stands for this variant in the C interface.
    pub open spec fn discriminant(self) -> u32 {
        match self {
            VROverlayInputMethod::VROverlayInputMethod_None => 0,
            VROverlayInputMethod::Mouse => 1,
        }
    }

    /// The number that stands for this variant in the C interface.
    pub fn code(self) -> (code: u32)
        ensures
            code == self.discriminant(),
    {
        match self {
            VROverlayInputMethod::VROverlayInputMethod_None => 0,
            VROverlayInputMethod::Mouse => 1,
        }
    }

    /// The variant that `code` stands for; none where it stands for no
    /// variant.
    pub fn from_code(code: u32) -> (found: Option<Self>)
        ensures
            found matches Some(variant) ==> variant.discriminant() == code,
            found is None ==> forall|variant: Self| variant.discriminant() != code,
    {
        match code {
            0 => Some(VROverlayInputMethod::VROverlayInputMethod_None),
            1 => Some(VROverlayInputMethod::Mouse),
            _ => None,
        }
    }
}

/// Who decides whether an overlay is shown.
#[derive(Debug, Clone, Copy, PartialEq, Eq, Structural)]
pub enum VROverlayVisibility {
    Manual,
    SystemOverlay,
}

impl VROverlayVisibility {
    /// The number that stands for this variant in the C interface.
    pub open spec fn discriminant(self) -> u32 {
        match self {
            VROverlayVisibility::Manual => 0,
            VROverlayVisibility::SystemOverlay => 1,
        }
    }

    /// The number that stands for this variant in the C interface.
    pub fn code(self) -> (code: u32)
        ensures
            code == self.discriminant(),
    {
        match self {
            VROverlayVisibility::Manual => 0,
            VROverlayVisibility::SystemOverlay => 1,
        }
    }

    /// The variant that `code` stands for; none where it stands for no
    /// variant.
    pub fn from_code(code: u32) -> (found: Option<Self>)
        ensures
            found matches Some(variant) ==> variant.discriminant() == code,
            found is None ==> forall|variant: Self| variant.discriminant() != code,
    {
        match code {
            0 => Some(VROverlayVisibility::Manual),
            1 => Some(VROverlayVisibility::SystemOverlay),
            _ => None,
        }
    }
}

/// What an overlay is positioned against.
#[derive(Debug, Clone, Copy, PartialEq, Eq, Structural)]
pub enum VROverlayTransformType {
    Absolute,
    TrackedDeviceRelative,
    SystemOverlay,
}

impl VROverlayTransformType {
    /// The number that stands for this variant in the C interface.
    pub open spec fn discriminant(self) -> u32 {
        match self {
            VROverlayTransformType::Absolute => 0,
            VROverlayTransformType::TrackedDeviceRelative => 1,
            VROverlayTransformType::SystemOverlay => 2,
        }
    }

    /// The number that stands for this variant in the C interface.
    pub fn code(self) -> (code: u32)
        ensures
            code == self.discriminant(),
    {
        match self {
            VROverlayTransformType::Absolute => 0,
            VROverlayTransformType::TrackedDeviceRelative => 1,
            VROverlayTransformType::SystemOverlay => 2,
        }
    }

    /// The variant that `code` stands for; none where it stands for no
    /// variant.
    pub fn from_code(code: u32) -> (found: Option<Self>)
        ensures
            found matches Some(variant) ==> variant.discriminant() == code,
            found is None ==> forall|variant: Self| variant.discriminant() != code,
    {
        match code {
            0 => Some(VROverlayTransformType::Absolute),
            1 => Some(VROverlayTransformType::TrackedDeviceRelative),
            2 => Some(VROverlayTransformType::SystemOverlay),
            _ => None,
        }
    }
}

/// A switch of an overlay.
#[derive(Debug, Clone, Copy, PartialEq, Eq, Structural)]
pub enum VROverlayFlags {
    VROverlayFlags_None,
    Curved,
    RGSS4X,
}

impl VROverlayFlags {
    /// The number that stands for this variant in the C interface.
    pub open spec fn discriminant(self) -> u32 {
        match self {
            VROverlayFlags::VROverlayFlags_None => 0,
            VROverlayFlags::Curved => 1,
            VROverlayFlags::RGSS4X => 2,
        }
    }

    /// The number that stands for this variant in the C interface.
    pub fn code(self) -> (code: u32)
        ensures
            code == self.discriminant(),
    {
        match self {
            VROverlayFlags::VROverlayFlags_None => 0,
            VROverlayFlags::Curved => 1,
            VROverlayFlags::RGSS4X => 2,
        }
    }

    /// The variant that `code` stands for; none where it stands for no
    /// variant.
    pub fn from_code(code: u32) -> (found: Option<Self>)
        ensures
            found matches Some(variant) ==> variant.discriminant() == code,
            found is None ==> forall|variant: Self| variant.discriminant() != code,
    {
        match code {
            0 => Some(VROverlayFlags::VROverlayFlags_None),
            1 => Some(VROverlayFlags::Curved),
            2 => Some(VROverlayFlags::RGSS4X),
            _ => None,
        }
    }
}

/// A texture of a render model. `rubTextureMapData` is the address of its
/// pixels.
#[derive(Debug, Clone, Copy)]
pub struct RenderModel_TextureMap_t {
    pub unWidth: u16,
    pub unHeight: u16,
    pub rubTextureMapData: usize,
}

/// The bitmap of a notification. `bytes` is the address of its pixels.
#[derive(Debug, Clone, Copy)]
pub struct NotificationBitmap {
    pub bytes: usize,
    pub width: i32,
    pub height: i32,
    pub depth: i32,
}

/// Payload of a controller event.
#[derive(Debug, Clone, Copy)]
pub struct VREvent_Controller_t {
    pub button: EVRButtonId,
}

/// Payload of a process event.
#[derive(Debug, Clone, Copy)]
pub struct VREvent_Process_t {
    pub pid: u32,
    pub oldPid: u32,
}

/// Payload of an overlay event.
#[derive(Debug, Clone, Copy)]
pub struct VREvent_Overlay_t {
    pub overlayHandle: u64,
}

/// Payload of an event that the runtime keeps to itself.
#[derive(Debug, Clone, Copy)]
pub struct VREvent_Reserved_t {
    pub reserved0: u64,
    pub reserved1: u64,
}

} // verus!
