//! The library's error type. Every failure a handler can surface is one of
//! these variants; the payload is the human-readable detail.

use vstd::prelude::*;
use vstd::string::StringExecFns;

verus! {

#[derive(Debug)]
pub enum KafkaEyeError {
    Kafka(String),
    Config(String),
    Ui(String),
    Io(String),
    Serialization(String),
    Other(String),
}

/// The mathematical shape of an error: the same variants over character
/// sequences.
pub enum SpecError {
    Kafka(Seq<char>),
    Config(Seq<char>),
    Ui(Seq<char>),
    Io(Seq<char>),
    Serialization(Seq<char>),
    Other(Seq<char>),
}

impl View for KafkaEyeError {
    type V = SpecError;

    open spec fn view(&self) -> SpecError {
        match self {
            KafkaEyeError::Kafka(m) => SpecError::Kafka(m@),
            KafkaEyeError::Config(m) => SpecError::Config(m@),
            KafkaEyeError::Ui(m) => SpecError::Ui(m@),
            KafkaEyeError::Io(m) => SpecError::Io(m@),
            KafkaEyeError::Serialization(m) => SpecError::Serialization(m@),
            KafkaEyeError::Other(m) => SpecError::Other(m@),
        }
    }
}

impl DeepView for KafkaEyeError {
    type V = SpecError;

    open spec fn deep_view(&self) -> SpecError {
        self.view()
    }
}

/// The operator-facing text of an error: a category prefix and the detail.
pub open spec fn error_message(e: SpecError) -> Seq<char> {
    match e {
        SpecError::Kafka(m) => "Kafka error: "@ + m,
        SpecError::Config(m) => "Configuration error: "@ + m,
        SpecError::Ui(m) => "UI error: "@ + m,
        SpecError::Io(m) => "IO error: "@ + m,
        SpecError::Serialization(m) => "Serialization error: "@ + m,
        SpecError::Other(m) => "Other error: "@ + m,
    }
}

impl KafkaEyeError {
    /// The operator-facing text of this error.
    pub fn message(&self) -> (r: String)
        ensures
            r@ == error_message(self@),
    {
        let mut s: String;
        match self {
            KafkaEyeError::Kafka(m) => {
                s = "Kafka error: ".to_owned();
                s.append(m.as_str());
            },
            KafkaEyeError::Config(m) => {
                s = "Configuration error: ".to_owned();
                s.append(m.as_str());
            },
            KafkaEyeError::Ui(m) => {
                s = "UI error: ".to_owned();
                s.append(m.as_str());
            },
            KafkaEyeError::Io(m) => {
                s = "IO error: ".to_owned();
                s.append(m.as_str());
            },
            KafkaEyeError::Serialization(m) => {
                s = "Serialization error: ".to_owned();
                s.append(m.as_str());
            },
            KafkaEyeError::Other(m) => {
                s = "Other error: ".to_owned();
                s.append(m.as_str());
            },
        }
        s
    }
}

} // verus!
