//! What the element tells the framework about itself as a kind of element.
use crate::framework::{Format, PadDirection, PadPresence};
use vstd::prelude::*;

verus! {

/// The media type of what the element produces: multiplexed audio and video, told
/// apart by what is attached to each buffer.
pub const CAPS_NAME: &'static str = "application/x-ndi";

/// How the element is listed.
#[derive(Clone, Copy, Debug, PartialEq, Eq)]
pub struct ElementMetadata {
    pub long_name: &'static str,
    pub classification: &'static str,
    pub description: &'static str,
    pub author: &'static str,
}

/// A pad that the element can have.
#[derive(Clone, Copy, Debug, PartialEq, Eq)]
pub struct PadTemplate {
    pub name: &'static str,
    pub direction: PadDirection,
    pub presence: PadPresence,
    pub caps_name: &'static str,
}

/// How the base class has to treat the element.
#[derive(Clone, Copy, Debug, PartialEq, Eq, Structural)]
pub struct SourceSetup {
    /// Whether data is produced in real time.
    pub live: bool,
    pub format: Format,
}

/// How the element is listed.
pub fn metadata() -> (metadata: ElementMetadata)
    ensures
        metadata.long_name@ == "NewTek NDI Source"@,
        metadata.classification@ == "Source/Audio/Video/Network"@,
        metadata.description@ == "NewTek NDI source"@,
        metadata.author@
            == "Ruben Gonzalez <rubenrua@teltek.es>, Daniel Vilar <daniel.peiteado@teltek.es>, Sebastian Dröge <sebastian@centricular.com>"@,
{
    ElementMetadata {
        long_name: "NewTek NDI Source",
        classification: "Source/Audio/Video/Network",
        description: "NewTek NDI source",
        author: "Ruben Gonzalez <rubenrua@teltek.es>, Daniel Vilar <daniel.peiteado@teltek.es>, Sebastian Dröge <sebastian@centricular.com>",
    }
}

/// The pads that the element has: one, from which everything is pushed.
pub fn pad_templates() -> (templates: Vec<PadTemplate>)
    ensures
        templates@.len() == 1,
        templates@[0].name@ == "src"@,
        templates@[0].direction == PadDirection::Src,
        templates@[0].presence == PadPresence::Always,
        templates@[0].caps_name@ == "application/x-ndi"@,
{
    vec![
        PadTemplate {
            name: "src",
            direction: PadDirection::Src,
            presence: PadPresence::Always,
            caps_name: CAPS_NAME,
        },
    ]
}

/// How the base class has to treat a new element.
pub fn constructed() -> (setup: SourceSetup)
    ensures
        setup == (SourceSetup { live: true, format: Format::Time }),
{
    SourceSetup { live: true, format: Format::Time }
}

/// Goes on after the caps of the pad were set, or could not be: in that case,
/// says why negotiation failed.
pub fn negotiate(caps_set: bool) -> (result: Result<(), &'static str>)
    ensures
        match result {
            Ok(()) => caps_set,
            Err(reason) => !caps_set && reason@ == "Failed to negotiate caps"@,
        },
{
    if caps_set {
        Ok(())
    } else {
        Err("Failed to negotiate caps")
    }
}

} // verus!
