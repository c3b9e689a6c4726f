use vstd::prelude::*;

verus! {

/// Interface a native tray backend implements. Icon data is raw RGBA bytes;
/// the library itself never draws on screen, so no behaviour is promised of
/// an implementation.
pub trait AloeSystemTrayInterface {
    fn set_icon_image(&mut self, colour_image: &[u8], template_image: &[u8]);

    fn set_icon_tooltip(&mut self, tooltip: &str);

    fn set_highlighted(&mut self, should_highlight: bool);
}

} // verus!
