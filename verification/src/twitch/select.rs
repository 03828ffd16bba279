//! The fair choice between the two sources of a session: the server's
//! lines and the consumer's requests.

use vstd::prelude::*;

verus! {

/// A value of one of two sources.
#[derive(Debug)]
pub enum Either<L, R> {
    Left(L),
    Right(R),
}

/// One of the two sources.
#[derive(Copy, Clone, Debug, PartialEq, Eq, Structural)]
pub enum Side {
    Left,
    Right,
}

impl Side {
    /// The other source.
    pub fn other(self) -> (side: Side)
        ensures
            side != self,
    {
        match self {
            Side::Left => Side::Right,
            Side::Right => Side::Left,
        }
    }
}

/// Calls `fastrand::bool`. The result is a random bit of the thread's
/// generator: nothing is claimed of it.
#[verifier::external_body]
fn flip() -> bool {
    fastrand::bool()
}

/// The source that is asked first after a coin flip of `coin`.
pub open spec fn first_side(coin: bool) -> Side {
    if coin {
        Side::Left
    } else {
        Side::Right
    }
}

/// The source to ask first, given the coin flip.
pub fn poll_first(coin: bool) -> (side: Side)
    ensures
        side == first_side(coin),
{
    if coin {
        Side::Left
    } else {
        Side::Right
    }
}

/// Flips a coin for the source to ask first. Either side may come out.
pub fn poll_order() -> (side: Side) {
    poll_first(flip())
}

/// What a poll of both sources resolves to, where `left` and `right` are
/// what each has ready: the value of the source that is asked first if it
/// has one, else that of the other, else nothing.
pub open spec fn selected<L, R>(coin: bool, left: Option<L>, right: Option<R>) -> Option<
    Either<L, R>,
> {
    match first_side(coin) {
        Side::Left => match (left, right) {
            (Some(l), _) => Some(Either::Left(l)),
            (None, Some(r)) => Some(Either::Right(r)),
            (None, None) => None,
        },
        Side::Right => match (right, left) {
            (Some(r), _) => Some(Either::Right(r)),
            (None, Some(l)) => Some(Either::Left(l)),
            (None, None) => None,
        },
    }
}

/// Resolves one poll of two sources, given the coin flip and what each
/// source has ready.
pub fn select2<L, R>(coin: bool, left: Option<L>, right: Option<R>) -> (ready: Option<
    Either<L, R>,
>)
    ensures
        ready == selected(coin, left, right),
{
    match poll_first(coin) {
        Side::Left => match left {
            Some(l) => Some(Either::Left(l)),
            None => match right {
                Some(r) => Some(Either::Right(r)),
                None => None,
            },
        },
        Side::Right => match right {
            Some(r) => Some(Either::Right(r)),
            None => match left {
                Some(l) => Some(Either::Left(l)),
                None => None,
            },
        },
    }
}

/// Neither source is preferred: where both have a value ready, each is the
/// one that resolves for one of the two coin flips. And a source that
/// alone has a value ready resolves whatever the coin says.
pub proof fn lemma_no_side_is_preferred<L, R>(l: L, r: R)
    ensures
        selected(true, Some(l), Some(r)) == Some(Either::<L, R>::Left(l)),
        selected(false, Some(l), Some(r)) == Some(Either::<L, R>::Right(r)),
        forall|coin: bool|
            #[trigger] selected(coin, Some(l), None::<R>) == Some(Either::<L, R>::Left(l)),
        forall|coin: bool|
            #[trigger] selected(coin, None::<L>, Some(r)) == Some(Either::<L, R>::Right(r)),
{
}

} // verus!
