use vstd::prelude::*;

verus! {

/// The four string arguments of one `Inhibit` call, in the order they are
/// marshalled onto the wire: what, who, why, mode.
pub struct InhibitRequest<'a> {
    /// Colon-separated set of lock types, e.g. `"shutdown:idle"`.
    pub what: &'a str,
    /// Human-readable description of who takes the lock.
    pub who: &'a str,
    /// Human-readable description of why the lock is taken.
    pub why: &'a str,
    /// Either `"block"` or `"delay"`; the service rejects anything else.
    pub mode: &'a str,
}

/// The mathematical value of an [`InhibitRequest`]: its four argument
/// strings as character sequences.
pub ghost struct InhibitRequestView {
    pub what: Seq<char>,
    pub who: Seq<char>,
    pub why: Seq<char>,
    pub mode: Seq<char>,
}

impl<'a> View for InhibitRequest<'a> {
    type V = InhibitRequestView;

    open spec fn view(&self) -> InhibitRequestView {
        InhibitRequestView { what: self.what@, who: self.who@, why: self.why@, mode: self.mode@ }
    }
}

/// The argument set that `inhibit(what, who, why, mode)` submits.
pub open spec fn inhibit_request(
    what: Seq<char>,
    who: Seq<char>,
    why: Seq<char>,
    mode: Seq<char>,
) -> InhibitRequestView {
    InhibitRequestView { what, who, why, mode }
}

/// The argument set that `inhibit_suspend(who, why)` submits: idle, shutdown
/// and sleep are all inhibited, in block mode.
pub open spec fn suspend_request(who: Seq<char>, why: Seq<char>) -> InhibitRequestView {
    inhibit_request("idle:shutdown:sleep"@, who, why, "block"@)
}

impl<'a> InhibitRequest<'a> {
    /// Assembles the four arguments of an `Inhibit` call, unchanged and in
    /// wire order.
    pub fn new(what: &'a str, who: &'a str, why: &'a str, mode: &'a str) -> (r: Self)
        ensures
            r@ == inhibit_request(what@, who@, why@, mode@),
    {
        InhibitRequest { what, who, why, mode }
    }

    /// Assembles the argument set of an `inhibit_suspend` call.
    pub fn suspend(who: &'a str, why: &'a str) -> (r: Self)
        ensures
            r@ == suspend_request(who@, why@),
    {
        Self::new("idle:shutdown:sleep", who, why, "block")
    }
}

/// An `inhibit_suspend(who, why)` call puts exactly the same four arguments
/// on the wire as `inhibit("idle:shutdown:sleep", who, why, "block")`.
pub proof fn lemma_suspend_request_is_inhibit_request(who: Seq<char>, why: Seq<char>)
    ensures
        suspend_request(who, why) == inhibit_request("idle:shutdown:sleep"@, who, why, "block"@),
{
}

} // verus!
