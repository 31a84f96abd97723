use vstd::prelude::*;
use vstd::string::*;

/// Common error constructors; each takes the displayed text of the cause.
pub mod common;

verus! {

/// An error of the application, by the part that raised it, with a message.
#[derive(Debug)]
pub enum YadawError {
    Audio(String),
    Plugin(String),
    File(String),
    State(String),
}

/// The message of an error.
pub open spec fn error_details(e: YadawError) -> Seq<char> {
    match e {
        YadawError::Audio(m) => m@,
        YadawError::Plugin(m) => m@,
        YadawError::File(m) => m@,
        YadawError::State(m) => m@,
    }
}

/// The title under which an error is shown to the user.
pub open spec fn error_title(e: YadawError) -> Seq<char> {
    match e {
        YadawError::Audio(_) => "Audio Error"@,
        YadawError::Plugin(_) => "Plugin Error"@,
        YadawError::File(_) => "File Error"@,
        YadawError::State(_) => "Application Error"@,
    }
}

/// The hint shown to the user for resolving an error.
pub open spec fn error_hint(e: YadawError) -> Seq<char> {
    match e {
        YadawError::Audio(_) => "Check your audio device settings"@,
        YadawError::Plugin(_) => "Try bypassing the plugin or checking for updates"@,
        YadawError::File(_) => "Check file permissions and disk space"@,
        YadawError::State(_) => "Try restarting the application"@,
    }
}

/// The prefix of an error's log line.
pub open spec fn error_log_prefix(e: YadawError) -> Seq<char> {
    match e {
        YadawError::Audio(_) => "Audio error: "@,
        YadawError::Plugin(_) => "Plugin error: "@,
        YadawError::File(_) => "File error: "@,
        YadawError::State(_) => "State error: "@,
    }
}

/// The text shown to the user: "<title>: <details>", a blank line, and
/// "Hint: <hint>".
pub open spec fn error_user_message(e: YadawError) -> Seq<char> {
    error_title(e) + ": "@ + error_details(e) + "\n\nHint: "@ + error_hint(e)
}

/// The text logged for an error: "<Kind> error: <details>".
pub open spec fn error_log_message(e: YadawError) -> Seq<char> {
    error_log_prefix(e) + error_details(e)
}

/// The result type of fallible operations of the application.
pub type Result<T> = core::result::Result<T, YadawError>;

impl YadawError {
    /// A user-friendly title for this error.
    pub fn title(&self) -> (r: &str)
        ensures
            r@ == error_title(*self),
    {
        match self {
            YadawError::Audio(_) => "Audio Error",
            YadawError::Plugin(_) => "Plugin Error",
            YadawError::File(_) => "File Error",
            YadawError::State(_) => "Application Error",
        }
    }

    /// A user-friendly hint for resolving this error (every kind has one).
    pub fn hint(&self) -> (r: Option<&str>)
        ensures
            r matches Some(h) && h@ == error_hint(*self),
    {
        match self {
            YadawError::Audio(_) => Some("Check your audio device settings"),
            YadawError::Plugin(_) => Some("Try bypassing the plugin or checking for updates"),
            YadawError::File(_) => Some("Check file permissions and disk space"),
            YadawError::State(_) => Some("Try restarting the application"),
        }
    }

    /// The detailed error message.
    pub fn details(&self) -> (r: &str)
        ensures
            r@ == error_details(*self),
    {
        match self {
            YadawError::Audio(msg) => msg.as_str(),
            YadawError::Plugin(msg) => msg.as_str(),
            YadawError::File(msg) => msg.as_str(),
            YadawError::State(msg) => msg.as_str(),
        }
    }

    /// The text shown to the user.
    pub fn user_message(&self) -> (r: String)
        ensures
            r@ == error_user_message(*self),
    {
        let mut s = String::from_str(self.title());
        s.append(": ");
        s.append(self.details());
        match self.hint() {
            Some(hint) => {
                s.append("\n\nHint: ");
                s.append(hint);
            },
            None => {},
        }
        s
    }

    /// The text written to the log.
    pub fn log_message(&self) -> (r: String)
        ensures
            r@ == error_log_message(*self),
    {
        let mut s = match self {
            YadawError::Audio(_) => String::from_str("Audio error: "),
            YadawError::Plugin(_) => String::from_str("Plugin error: "),
            YadawError::File(_) => String::from_str("File error: "),
            YadawError::State(_) => String::from_str("State error: "),
        };
        s.append(self.details());
        s
    }

    /// The text the error is displayed with, "<Kind> error: <details>"; the
    /// log writes the same text.
    pub fn to_string(&self) -> (r: String)
        ensures
            r@ == error_log_message(*self),
    {
        self.log_message()
    }

    /// An audio error with the given message.
    pub fn audio(msg: &str) -> (r: Self)
        ensures
            r matches YadawError::Audio(m) && m@ == msg@,
    {
        YadawError::Audio(String::from_str(msg))
    }

    /// A plugin error with the given message.
    pub fn plugin(msg: &str) -> (r: Self)
        ensures
            r matches YadawError::Plugin(m) && m@ == msg@,
    {
        YadawError::Plugin(String::from_str(msg))
    }

    /// A file error with the given message.
    pub fn file(msg: &str) -> (r: Self)
        ensures
            r matches YadawError::File(m) && m@ == msg@,
    {
        YadawError::File(String::from_str(msg))
    }

    /// A state error with the given message.
    pub fn state(msg: &str) -> (r: Self)
        ensures
            r matches YadawError::State(m) && m@ == msg@,
    {
        YadawError::State(String::from_str(msg))
    }
}

} // verus!
