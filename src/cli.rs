use vstd::prelude::*;
use crate::errors::{
    chain, chain_of, chained, human, plain_layer, BoxedError, CargoError, ErrorLayer,
};

verus! {

broadcast use crate::errors::lemma_layers_unfold;

/// The outer layer put above an error that is not meant for users.
pub open spec fn unknown_layer() -> ErrorLayer {
    plain_layer("An unknown error occurred"@, None, true)
}

/// The chain that reaches the user: kept as it is when its outer layer is
/// human, else put under the generic unknown-error layer.
pub open spec fn shown_chain(chain: Seq<ErrorLayer>) -> Seq<ErrorLayer> {
    if chain[0].is_human {
        chain
    } else {
        chained(chain, unknown_layer())
    }
}

/// The final failure of the program: an error whose outer description may
/// be shown to the user, and the exit code to leave with.
pub struct CliError {
    pub error: BoxedError,
    pub exit_code: usize,
}

impl CliError {
    /// The outer description is meant for the user.
    pub open spec fn wf(&self) -> bool {
        self.error.top().is_human
    }

    /// A failure with a message for the user.
    pub fn new(error: &str, code: usize) -> (r: CliError)
        ensures
            r.wf(),
            r.exit_code == code,
            r.error.layers() == seq![plain_layer(error@, None, true)],
    {
        let error = human(error);
        CliError::from_boxed(error, code)
    }

    /// A failure made from any error value.
    pub fn from_error<E: CargoError>(error: E, code: usize) -> (r: CliError)
        ensures
            r.wf(),
            r.exit_code == code,
            r.error.layers() == shown_chain(chain_of(&error)),
    {
        let error = error.box_error();
        CliError::from_boxed(error, code)
    }

    /// A failure made from a boxed error value. A human error is kept as it
    /// is; any other becomes the cause of a generic human message.
    pub fn from_boxed(error: BoxedError, code: usize) -> (r: CliError)
        ensures
            r.wf(),
            r.exit_code == code,
            r.error.layers() == shown_chain(error.layers()),
    {
        let error = if error.is_human() {
            error
        } else {
            let update = human("An unknown error occurred");
            chain(error, update)
        };
        CliError { error, exit_code: code }
    }
}

} // verus!
