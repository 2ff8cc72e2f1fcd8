use vstd::prelude::*;

verus! {

/// Named visual styles of the glass material. Each has a stable integer
/// code, which is what the native surface receives.
#[derive(Debug, Clone, Copy, PartialEq, Eq)]
pub enum GlassMaterialVariant {
    /// Regular glass effect
    Regular,
    /// Clear glass
    Clear,
    /// Dock-style glass
    Dock,
    /// App icons glass
    AppIcons,
    /// Widgets glass
    Widgets,
    /// Text glass
    Text,
    /// AVPlayer glass
    AVPlayer,
    /// FaceTime glass
    FaceTime,
    /// Control Center glass
    ControlCenter,
    /// Notification Center glass
    NotificationCenter,
    /// Monogram glass
    Monogram,
    /// Bubbles glass
    Bubbles,
    /// Identity glass
    Identity,
    /// Focus border glass
    FocusBorder,
    /// Focus platter glass
    FocusPlatter,
    /// Keyboard glass
    Keyboard,
    /// Sidebar glass
    Sidebar,
    /// Abutted sidebar glass
    AbuttedSidebar,
    /// Inspector glass
    Inspector,
    /// Control glass
    Control,
    /// Loupe glass
    Loupe,
    /// Slider glass
    Slider,
    /// Camera glass
    Camera,
    /// Cartouche popover glass
    CartouchePopover,
}

impl GlassMaterialVariant {
    /// The stable code of the variant, `Regular` = 0 through `CartouchePopover` = 23.
    pub open spec fn spec_code(self) -> i64 {
        match self {
            GlassMaterialVariant::Regular => 0,
            GlassMaterialVariant::Clear => 1,
            GlassMaterialVariant::Dock => 2,
            GlassMaterialVariant::AppIcons => 3,
            GlassMaterialVariant::Widgets => 4,
            GlassMaterialVariant::Text => 5,
            GlassMaterialVariant::AVPlayer => 6,
            GlassMaterialVariant::FaceTime => 7,
            GlassMaterialVariant::ControlCenter => 8,
            GlassMaterialVariant::NotificationCenter => 9,
            GlassMaterialVariant::Monogram => 10,
            GlassMaterialVariant::Bubbles => 11,
            GlassMaterialVariant::Identity => 12,
            GlassMaterialVariant::FocusBorder => 13,
            GlassMaterialVariant::FocusPlatter => 14,
            GlassMaterialVariant::Keyboard => 15,
            GlassMaterialVariant::Sidebar => 16,
            GlassMaterialVariant::AbuttedSidebar => 17,
            GlassMaterialVariant::Inspector => 18,
            GlassMaterialVariant::Control => 19,
            GlassMaterialVariant::Loupe => 20,
            GlassMaterialVariant::Slider => 21,
            GlassMaterialVariant::Camera => 22,
            GlassMaterialVariant::CartouchePopover => 23,
        }
    }

    /// The stable code that the native surface receives for this variant.
    pub fn code(&self) -> (r: i64)
        ensures
            r == self.spec_code(),
            0 <= r < 24,
    {
        match self {
            GlassMaterialVariant::Regular => 0,
            GlassMaterialVariant::Clear => 1,
            GlassMaterialVariant::Dock => 2,
            GlassMaterialVariant::AppIcons => 3,
            GlassMaterialVariant::Widgets => 4,
            GlassMaterialVariant::Text => 5,
            GlassMaterialVariant::AVPlayer => 6,
            GlassMaterialVariant::FaceTime => 7,
            GlassMaterialVariant::ControlCenter => 8,
            GlassMaterialVariant::NotificationCenter => 9,
            GlassMaterialVariant::Monogram => 10,
            GlassMaterialVariant::Bubbles => 11,
            GlassMaterialVariant::Identity => 12,
            GlassMaterialVariant::FocusBorder => 13,
            GlassMaterialVariant::FocusPlatter => 14,
            GlassMaterialVariant::Keyboard => 15,
            GlassMaterialVariant::Sidebar => 16,
            GlassMaterialVariant::AbuttedSidebar => 17,
            GlassMaterialVariant::Inspector => 18,
            GlassMaterialVariant::Control => 19,
            GlassMaterialVariant::Loupe => 20,
            GlassMaterialVariant::Slider => 21,
            GlassMaterialVariant::Camera => 22,
            GlassMaterialVariant::CartouchePopover => 23,
        }
    }
}

} // verus!
