//! The unit of content handed from the producer to the interactive session.

use std::path::PathBuf;
use vstd::prelude::*;

verus! {

/// A path to a stored image: carried through, never inspected.
#[verifier::external_type_specification]
#[verifier::external_body]
pub struct ExPathBuf(std::path::PathBuf);

/// One generated part of the story: its words and the image drawn for them.
#[derive(Debug, Default)]
pub struct StoryPart {
    pub section: Vec<String>,
    pub image: PathBuf,
}

} // verus!
