//! What can end a capture, and how each failure is reported.

use vstd::prelude::*;

verus! {

/// The five families of failure.  Each is fatal to the whole capture.
#[derive(Clone, Copy, Debug, PartialEq, Eq, Structural)]
pub enum ErrorKind {
    /// The session bus cannot be reached.
    Connection,
    /// A method call timed out or the compositor answered with a fault.
    Call,
    /// A reply arrived but does not have the shape the method promises.
    ReplyShape,
    /// The pixels and the resolution do not make an image.
    Encode,
    /// The output file cannot be created or written.
    Io,
}

/// The step at which a capture failed.
#[derive(Clone, Copy, Debug, PartialEq, Eq, Structural)]
pub enum CaptureError {
    /// No connection to the session bus.
    Connect,
    /// A method call could not be put together.
    BuildCall,
    /// A method call got no reply in time, or a fault for a reply.
    SendCall,
    /// A reply is empty or holds a value of the wrong type.
    UnexpectedReply,
    /// The active output is named by something other than a string.
    WrongOutputType,
    /// The reply to the resolution query is not a record.
    NoResolution,
    /// The pixel buffer and the resolution do not fit, or the encoder failed.
    EncodeImage,
    /// The image just encoded cannot be read back.
    ReadEncoded,
    /// The output file cannot be created.
    CreateFile,
    /// The finished image cannot be written to the output file.
    SaveImage,
}

impl CaptureError {
    /// The family a failure belongs to.
    pub open spec fn spec_kind(self) -> ErrorKind {
        match self {
            CaptureError::Connect => ErrorKind::Connection,
            CaptureError::BuildCall | CaptureError::SendCall => ErrorKind::Call,
            CaptureError::UnexpectedReply
            | CaptureError::WrongOutputType
            | CaptureError::NoResolution => ErrorKind::ReplyShape,
            CaptureError::EncodeImage | CaptureError::ReadEncoded => ErrorKind::Encode,
            CaptureError::CreateFile | CaptureError::SaveImage => ErrorKind::Io,
        }
    }

    /// The text shown to the user for a failure.
    pub open spec fn spec_message(self) -> Seq<char> {
        match self {
            CaptureError::Connect => "Could not connect to D-Bus"@,
            CaptureError::BuildCall => "Could not construct message -- is Way Cooler running?"@,
            CaptureError::SendCall => "Could not talk to Way Cooler -- is Way Cooler running?"@,
            CaptureError::UnexpectedReply => "Way Cooler returned an unexpected value"@,
            CaptureError::WrongOutputType => "Wrong type from Screen"@,
            CaptureError::NoResolution => "Could not get resolution of screen"@,
            CaptureError::EncodeImage => "Could not encode image to PNG"@,
            CaptureError::ReadEncoded => "Could not read encoded image"@,
            CaptureError::CreateFile => "Could not create output file"@,
            CaptureError::SaveImage => "Could not save image to file"@,
        }
    }

    /// The family this failure belongs to.
    pub fn kind(&self) -> (kind: ErrorKind)
        ensures
            kind == self.spec_kind(),
    {
        match self {
            CaptureError::Connect => ErrorKind::Connection,
            CaptureError::BuildCall | CaptureError::SendCall => ErrorKind::Call,
            CaptureError::UnexpectedReply
            | CaptureError::WrongOutputType
            | CaptureError::NoResolution => ErrorKind::ReplyShape,
            CaptureError::EncodeImage | CaptureError::ReadEncoded => ErrorKind::Encode,
            CaptureError::CreateFile | CaptureError::SaveImage => ErrorKind::Io,
        }
    }

    /// The text to show the user: it names the step that failed.
    pub fn message(&self) -> (text: &'static str)
        ensures
            text@ == self.spec_message(),
    {
        match self {
            CaptureError::Connect => "Could not connect to D-Bus",
            CaptureError::BuildCall => "Could not construct message -- is Way Cooler running?",
            CaptureError::SendCall => "Could not talk to Way Cooler -- is Way Cooler running?",
            CaptureError::UnexpectedReply => "Way Cooler returned an unexpected value",
            CaptureError::WrongOutputType => "Wrong type from Screen",
            CaptureError::NoResolution => "Could not get resolution of screen",
            CaptureError::EncodeImage => "Could not encode image to PNG",
            CaptureError::ReadEncoded => "Could not read encoded image",
            CaptureError::CreateFile => "Could not create output file",
            CaptureError::SaveImage => "Could not save image to file",
        }
    }
}

/// No two failures share a message: the text alone tells the user which
/// step went wrong.
pub proof fn lemma_messages_distinct(a: CaptureError, b: CaptureError)
    requires
        a != b,
    ensures
        a.spec_message() != b.spec_message(),
{
    reveal_strlit("Could not connect to D-Bus");
    reveal_strlit("Could not construct message -- is Way Cooler running?");
    reveal_strlit("Could not talk to Way Cooler -- is Way Cooler running?");
    reveal_strlit("Way Cooler returned an unexpected value");
    reveal_strlit("Wrong type from Screen");
    reveal_strlit("Could not get resolution of screen");
    reveal_strlit("Could not encode image to PNG");
    reveal_strlit("Could not read encoded image");
    reveal_strlit("Could not create output file");
    reveal_strlit("Could not save image to file");
    let x = a.spec_message();
    let y = b.spec_message();
    if x.len() == y.len() {
        // Messages of one length differ in the letter that follows "Could not ".
        assert(x[10] != y[10]);
    }
}

} // verus!
