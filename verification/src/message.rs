use vstd::prelude::*;

verus! {

/// One entry of a sink's queue: a line of content, or the close sentinel
/// that tells the sink's consumer to drain no further and terminate.
#[derive(Debug)]
pub enum StdoutMessage {
    Mesg(String),
    Close,
}

impl View for StdoutMessage {
    type V = Option<Seq<char>>;

    open spec fn view(&self) -> Option<Seq<char>> {
        match self {
            StdoutMessage::Mesg(s) => Some(s@),
            StdoutMessage::Close => None,
        }
    }
}

} // verus!
