//! Which pollers run from the start.

use vstd::prelude::*;
use crate::polling::PollerKind;

verus! {

/// The pollers that are started with the service, in this order: the one
/// for the players and the one for the admin log.
pub open spec fn initial_pollers() -> Seq<PollerKind> {
    seq![PollerKind::Players, PollerKind::ShowLog]
}

/// The pollers to start with the service.
pub fn start_polling() -> (pollers: Vec<PollerKind>)
    ensures
        pollers@ == initial_pollers(),
{
    let mut pollers: Vec<PollerKind> = Vec::new();
    pollers.push(PollerKind::Players);
    pollers.push(PollerKind::ShowLog);
    pollers
}

} // verus!
