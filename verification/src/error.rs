//! Failures, and how they are told to the user.

use vstd::prelude::*;

verus! {

/// Why a sound file's path is no valid source.
#[derive(Clone, Copy, Debug, PartialEq, Eq, Structural)]
pub enum SourceFault {
    /// Nothing exists at the path.
    DoesNotExist,
    /// Something exists there, but no regular file.
    NotAFile,
}

/// Why a scene document could not be taken up.
#[derive(Clone, Copy, Debug, PartialEq, Eq, Structural)]
pub enum SceneFault {
    /// The file could not be read.
    Unreadable,
    /// The text is no scene.
    Broken,
}

/// Everything that can go wrong at the crate's boundary. A cause is the
/// text of the underlying error in its `Debug` form, as the caller made it.
#[derive(Debug, PartialEq, Eq)]
pub enum HibikiError {
    /// A sound file's path is missing or names no regular file.
    InvalidSource(String, SourceFault),
    /// A sound file's bytes are no audio the decoder accepts.
    UnsupportedOrCorruptAudio(String),
    /// A scene's path exists but names no regular file.
    NotAFile(String),
    /// A sound file exists but could not be read; holds the cause.
    InternalError(String),
    /// A scene document is unreadable or malformed; holds the cause.
    Corrupt(String, SceneFault),
    /// A scene document could not be written; holds the cause.
    WriteFailed(String),
    /// A scene could not be put into text; holds the cause.
    SerializeFailed(String),
}

/// The `Debug` form of a path, as `format!("{:?}", ..)` gives it for a
/// `std::path::Path`: the path between double quotes, with what cannot be
/// shown as it is escaped.
pub uninterp spec fn debug_form(path: Seq<char>) -> Seq<char>;

/// Formats `path` as a `std::path::Path` with `{:?}`. Trusted: the text is
/// the path's `debug_form`.
#[verifier::external_body]
fn path_debug(path: &String) -> (shown: String)
    ensures
        shown@ == debug_form(path@),
{
    format!("{:?}", std::path::Path::new(path))
}

impl HibikiError {
    /// Whether the failure is about a path, and not about an underlying
    /// error.
    pub open spec fn names_path(&self) -> bool {
        self is InvalidSource || self is UnsupportedOrCorruptAudio || self is NotAFile
    }

    /// The path or the cause that the failure holds.
    pub open spec fn payload(&self) -> Seq<char> {
        match self {
            HibikiError::InvalidSource(path, _) => path@,
            HibikiError::UnsupportedOrCorruptAudio(path) => path@,
            HibikiError::NotAFile(path) => path@,
            HibikiError::InternalError(cause) => cause@,
            HibikiError::Corrupt(cause, _) => cause@,
            HibikiError::WriteFailed(cause) => cause@,
            HibikiError::SerializeFailed(cause) => cause@,
        }
    }

    /// The sentence shown to the user, around `shown`, the text that stands
    /// for the payload.
    pub open spec fn sentence_text(&self, shown: Seq<char>) -> Seq<char> {
        match self {
            HibikiError::InvalidSource(_, SourceFault::DoesNotExist) => "File at '"@ + shown
                + "' does not exist."@,
            HibikiError::InvalidSource(_, SourceFault::NotAFile) => "'"@ + shown
                + "' is not a file."@,
            HibikiError::UnsupportedOrCorruptAudio(_) => "'"@ + shown
                + "' holds no audio that can be played."@,
            HibikiError::NotAFile(_) => "'"@ + shown + "' is not a file."@,
            HibikiError::InternalError(_) => "Internal error occured: "@ + shown,
            HibikiError::Corrupt(_, SceneFault::Unreadable) => "Internal error occured: "@ + shown,
            HibikiError::Corrupt(_, SceneFault::Broken) => "Broken scene file: "@ + shown,
            HibikiError::WriteFailed(_) => "Internal error occured: "@ + shown,
            HibikiError::SerializeFailed(_) => "Couldn't save scene: "@ + shown,
        }
    }

    /// The sentence shown to the user: a path stands in it in its `Debug`
    /// form, a cause as it is.
    pub open spec fn message_text(&self) -> Seq<char> {
        if self.names_path() {
            self.sentence_text(debug_form(self.payload()))
        } else {
            self.sentence_text(self.payload())
        }
    }

    /// The sentence shown to the user, around `shown`, the text that stands
    /// for the payload.
    pub fn sentence(&self, shown: &String) -> (text: String)
        ensures
            text@ == self.sentence_text(shown@),
    {
        match self {
            HibikiError::InvalidSource(_, fault) => match fault {
                SourceFault::DoesNotExist => quoted("File at '", shown, "' does not exist."),
                SourceFault::NotAFile => quoted("'", shown, "' is not a file."),
            },
            HibikiError::UnsupportedOrCorruptAudio(_) => quoted(
                "'",
                shown,
                "' holds no audio that can be played.",
            ),
            HibikiError::NotAFile(_) => quoted("'", shown, "' is not a file."),
            HibikiError::InternalError(_) => prefixed("Internal error occured: ", shown),
            HibikiError::Corrupt(_, fault) => match fault {
                SceneFault::Unreadable => prefixed("Internal error occured: ", shown),
                SceneFault::Broken => prefixed("Broken scene file: ", shown),
            },
            HibikiError::WriteFailed(_) => prefixed("Internal error occured: ", shown),
            HibikiError::SerializeFailed(_) => prefixed("Couldn't save scene: ", shown),
        }
    }

    /// The sentence shown to the user.
    pub fn message(&self) -> (text: String)
        ensures
            text@ == self.message_text(),
    {
        match self {
            HibikiError::InvalidSource(path, _) => self.sentence(&path_debug(path)),
            HibikiError::UnsupportedOrCorruptAudio(path) => self.sentence(&path_debug(path)),
            HibikiError::NotAFile(path) => self.sentence(&path_debug(path)),
            HibikiError::InternalError(cause) => self.sentence(cause),
            HibikiError::Corrupt(cause, _) => self.sentence(cause),
            HibikiError::WriteFailed(cause) => self.sentence(cause),
            HibikiError::SerializeFailed(cause) => self.sentence(cause),
        }
    }
}

/// `rest` behind a fixed piece of text.
fn prefixed(before: &str, rest: &String) -> (text: String)
    ensures
        text@ == before@ + rest@,
{
    let mut text = String::from_str(before);
    text.append(rest.as_str());
    text
}

/// `middle` between two fixed pieces of text.
fn quoted(before: &str, middle: &String, after: &str) -> (text: String)
    ensures
        text@ == before@ + middle@ + after@,
{
    let mut text = prefixed(before, middle);
    text.append(after);
    text
}

/// The texts of a list of messages.
pub open spec fn texts(messages: Seq<String>) -> Seq<Seq<char>> {
    messages.map_values(|message: String| message@)
}

/// Results that can be told to the user: a failure becomes a message, a
/// success is handed on.
pub trait ToastyError<T> {
    /// Appends the failure's message to `toasts`, if there is one.
    fn handle_toasty(self, toasts: &mut Vec<String>) -> Option<T>;
}

impl<T> ToastyError<T> for Result<T, HibikiError> {
    fn handle_toasty(self, toasts: &mut Vec<String>) -> (value: Option<T>)
        ensures
            match self {
                Ok(inner) => value == Some(inner) && final(toasts)@ == old(toasts)@,
                Err(error) => value.is_none() && texts(final(toasts)@) == texts(old(toasts)@).push(
                    error.message_text(),
                ),
            },
    {
        match self {
            Ok(inner) => Some(inner),
            Err(error) => {
                let text = error.message();
                toasts.push(text);
                assert(texts(toasts@) =~= texts(old(toasts)@).push(error.message_text()));
                None
            },
        }
    }
}

} // verus!
