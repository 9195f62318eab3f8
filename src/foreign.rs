use vstd::prelude::*;
use vstd::string::to_string_from_display_ensures;
use crate::errors::{error, plain_layer, BoxedError, FromError};

verus! {

/// Relies on std::io::Error only as a value carried into the conversion
/// below; nothing inside it is read but its `Display` rendering.
#[verifier::external_type_specification]
#[verifier::external_body]
pub struct ExIoError(std::io::Error);

/// Relies on toml::de::Error only as a value carried into the conversion
/// below; nothing inside it is read but its `Display` rendering.
#[verifier::external_type_specification]
#[verifier::external_body]
pub struct ExTomlError(toml::de::Error);

/// Whether `r` is the boxed form of a foreign failure whose `Display`
/// rendering is `text`: one internal layer with no detail.
pub open spec fn foreign_layers(r: BoxedError, text: String) -> bool {
    r.layers() == seq![plain_layer(text@, None, false)]
}

impl FromError<std::io::Error> for BoxedError {
    open spec fn converted(error: std::io::Error, r: Self) -> bool {
        exists|text: String|
            #![trigger to_string_from_display_ensures::<std::io::Error>(&error, text)]
            to_string_from_display_ensures::<std::io::Error>(&error, text) && foreign_layers(r, text)
    }

    fn from_error(e: std::io::Error) -> (r: Self) {
        let text = e.to_string();
        error(text.as_str())
    }
}

impl FromError<toml::de::Error> for BoxedError {
    open spec fn converted(error: toml::de::Error, r: Self) -> bool {
        exists|text: String|
            #![trigger to_string_from_display_ensures::<toml::de::Error>(&error, text)]
            to_string_from_display_ensures::<toml::de::Error>(&error, text) && foreign_layers(r, text)
    }

    fn from_error(e: toml::de::Error) -> (r: Self) {
        let text = e.to_string();
        error(text.as_str())
    }
}

} // verus!
