use vstd::prelude::*;
use crate::cli::{shown_chain, unknown_layer, CliError};
use crate::errors::{boxed_outcome, chain_of, chained, BoxError, BoxedError, CargoError, CargoResult};

verus! {

broadcast use crate::errors::lemma_layers_unfold;

/// Chaining keeps both sides: the result describes itself as `update` does,
/// and its cause is the whole of `original`, whose description comes first.
pub proof fn lemma_chain_keeps_both<E: CargoError>(original: BoxedError, update: E, r: BoxedError)
    requires
        r.layers() == chained(original.layers(), update.head()),
    ensures
        r.head().description == update.head().description,
        r.causes().len() > 0,
        r.causes() == original.layers(),
        r.causes()[0].description == original.head().description,
{
}

/// A non-human error reaches the user under a human outer layer, with the
/// error itself as the cause, and with the exit code it was given.
pub proof fn lemma_cli_wraps_internal(e: BoxedError, code: usize, r: CliError)
    requires
        !e.head().is_human,
        r.error.layers() == shown_chain(e.layers()),
        r.exit_code == code,
    ensures
        r.error.head().is_human,
        r.error.head() == unknown_layer(),
        r.error.causes() == e.layers(),
        r.error.causes()[0].description == e.head().description,
        r.exit_code == code,
{
}

/// A human error reaches the user as it is, with the exit code it was given.
pub proof fn lemma_cli_keeps_human(e: BoxedError, code: usize, r: CliError)
    requires
        e.head().is_human,
        r.error.layers() == shown_chain(e.layers()),
        r.exit_code == code,
    ensures
        r.error.layers() == e.layers(),
        r.error.head() == e.head(),
        r.exit_code == code,
{
}

/// Boxing a result twice gives what boxing it once gives: a boxed result
/// boxes to the same outcome.
pub proof fn lemma_box_error_idempotent<T, E: CargoError>(
    r: Result<T, E>,
    once: CargoResult<T>,
    twice: CargoResult<T>,
)
    requires
        boxed_outcome(&once) == r.outcome(),
        boxed_outcome(&twice) == once.outcome(),
    ensures
        boxed_outcome(&twice) == boxed_outcome(&once),
{
    match once {
        Ok(v) => {},
        Err(e) => {
            assert(chain_of(&e) =~= e.layers());
        },
    }
}

} // verus!
