use vstd::prelude::*;

verus! {

/// An OLE verb number, as passed to `IOleObject::DoVerb`.
pub type VerbId = i32;

/// `OLEIVERB_SHOW`.
pub const OLEIVERB_SHOW: VerbId = -1;
/// `OLEIVERB_OPEN`.
pub const OLEIVERB_OPEN: VerbId = -2;
/// `OLEIVERB_HIDE`.
pub const OLEIVERB_HIDE: VerbId = -3;
/// `OLEIVERB_INPLACEACTIVATE`.
pub const OLEIVERB_INPLACEACTIVATE: VerbId = -5;

/// `S_OK`.
pub const S_OK: i32 = 0;
/// `OLEOBJ_S_INVALIDVERB`: the verb is not one the object knows.
pub const OLEOBJ_S_INVALIDVERB: i32 = 262528;
/// `E_NOTIMPL`.
pub const E_NOTIMPL: i32 = -2147467263;
/// `CONNECT_E_NOCONNECTION` (0x80040200): the object has no such connection point.
pub const CONNECT_E_NOCONNECTION: i32 = -2147220992;

/// What the control does for a verb.
#[derive(Clone, Copy, PartialEq, Eq, Structural, Debug)]
pub enum VerbOutcome {
    /// Show, open or hide: accepted and otherwise ignored.
    Builtin,
    /// Activate in place: create the host window and the browser, then resize.
    InPlaceActivate,
    /// A verb the control does not know, answered with this `HRESULT`.
    Unknown(i32),
}

pub open spec fn spec_do_verb(verb: VerbId) -> VerbOutcome {
    if verb == OLEIVERB_SHOW || verb == OLEIVERB_OPEN || verb == OLEIVERB_HIDE {
        VerbOutcome::Builtin
    } else if verb == OLEIVERB_INPLACEACTIVATE {
        VerbOutcome::InPlaceActivate
    } else if verb > 0 {
        VerbOutcome::Unknown(OLEOBJ_S_INVALIDVERB)
    } else {
        VerbOutcome::Unknown(E_NOTIMPL)
    }
}

/// `IOleObject::DoVerb`: unknown positive verbs are reported as invalid, unknown negative (or
/// zero) verbs as not implemented.
pub fn do_verb(verb: VerbId) -> (r: VerbOutcome)
    ensures
        r == spec_do_verb(verb),
        verb == -1 || verb == -2 || verb == -3 ==> r == VerbOutcome::Builtin,
        verb == -5 ==> r == VerbOutcome::InPlaceActivate,
        verb > 0 ==> r == VerbOutcome::Unknown(262528i32),
        verb == 0 || verb == -4 || verb < -5 ==> r == VerbOutcome::Unknown(-2147467263i32),
{
    match verb {
        OLEIVERB_SHOW | OLEIVERB_OPEN | OLEIVERB_HIDE => VerbOutcome::Builtin,
        OLEIVERB_INPLACEACTIVATE => VerbOutcome::InPlaceActivate,
        _ => {
            if verb > 0 {
                VerbOutcome::Unknown(OLEOBJ_S_INVALIDVERB)
            } else {
                VerbOutcome::Unknown(E_NOTIMPL)
            }
        },
    }
}

impl VerbOutcome {
    /// The `HRESULT` that `DoVerb` returns for this outcome.
    pub fn hresult(&self) -> (r: i32)
        ensures
            self matches VerbOutcome::Unknown(h) ==> r == h,
            !(self is Unknown) ==> r == S_OK,
    {
        match self {
            VerbOutcome::Unknown(h) => *h,
            _ => S_OK,
        }
    }
}

} // verus!
