//! Deciding whether an output artifact has to be generated again.
use vstd::prelude::*;

verus! {

/// The width and height of an image, in pixels.
#[derive(Debug, Clone, Copy, PartialEq, Eq, Structural)]
pub struct Dimensions {
    pub width: usize,
    pub height: usize,
}

/// What was observed of one source asset and of its output artifact.
/// A modification time counts nanoseconds from the Unix epoch, negative
/// before it; `None` stands for a time that could not be read.
#[derive(Debug, Clone, Copy, PartialEq, Eq, Structural)]
pub struct ArtifactProbe {
    pub source_mtime: Option<i128>,
    pub output_mtime: Option<i128>,
    /// Width and height read from the artifact's header, or `None` when the
    /// header could not be read or measured.
    pub output_size: Option<Dimensions>,
}

/// The comparison of an asset with its artifact could not be made.
#[derive(Debug, Clone, Copy, PartialEq, Eq, Structural)]
pub enum StaleError {
    /// One of the two modification times could not be read.
    MtimeUnreadable,
}

/// `one` was modified strictly later than `two`.
pub fn is_newer_than(one: i128, two: i128) -> (r: bool)
    ensures
        r == (one > two),
{
    one > two
}

/// Neither side of the artifact has the target length.
pub open spec fn wrongly_sized(size: Dimensions, target: u32) -> bool {
    !(size.width == target as usize || size.height == target as usize)
}

/// Whether the artifact of an asset has to be generated again. An absent
/// artifact has to be; otherwise both modification times must be readable,
/// and the artifact is stale when its size cannot be probed, when the
/// source is newer, or when neither side has the target length.
pub open spec fn staleness(present: bool, p: ArtifactProbe, target: u32) -> Result<bool, StaleError> {
    if !present {
        Ok(true)
    } else if p.source_mtime is None || p.output_mtime is None {
        Err(StaleError::MtimeUnreadable)
    } else {
        match p.output_size {
            None => Ok(true),
            Some(size) => Ok(
                p.source_mtime->Some_0 > p.output_mtime->Some_0 || wrongly_sized(size, target),
            ),
        }
    }
}

/// Decides whether the artifact of an asset is stale; `present` tells
/// whether the output catalog holds it.
pub fn is_stale(present: bool, probe: &ArtifactProbe, target: u32) -> (r: Result<bool, StaleError>)
    ensures
        r == staleness(present, *probe, target),
{
    if !present {
        return Ok(true);
    }
    let (source_mtime, output_mtime) = match (probe.source_mtime, probe.output_mtime) {
        (Some(s), Some(o)) => (s, o),
        _ => return Err(StaleError::MtimeUnreadable),
    };
    match probe.output_size {
        None => Ok(true),
        Some(size) => {
            let newer = is_newer_than(source_mtime, output_mtime);
            let sized = size.width == target as usize || size.height == target as usize;
            Ok(newer || !sized)
        },
    }
}

} // verus!
