//! Trading signals: what a strategy asks for.

use vstd::prelude::*;

verus! {

/// A trading signal direction.
#[derive(Clone, Copy, Debug, PartialEq, Eq, Structural)]
pub enum SignalType {
    /// Enter long, or flip from short to long.
    Buy,
    /// Enter short, or flip from long to short.
    Sell,
    /// No new action.
    Hold,
    /// Close the existing position without reversing.
    Close,
}

impl SignalType {
    /// The signal's upper-case name.
    pub open spec fn spec_name(self) -> Seq<char> {
        match self {
            SignalType::Buy => "BUY"@,
            SignalType::Sell => "SELL"@,
            SignalType::Hold => "HOLD"@,
            SignalType::Close => "CLOSE"@,
        }
    }

    /// The signal as text for people to read: its upper-case name.
    pub fn render(&self) -> (r: String)
        ensures
            r@ == self.spec_name(),
    {
        match self {
            SignalType::Buy => "BUY".to_string(),
            SignalType::Sell => "SELL".to_string(),
            SignalType::Hold => "HOLD".to_string(),
            SignalType::Close => "CLOSE".to_string(),
        }
    }
}

/// No two signals read the same.
pub proof fn signal_names_are_distinct(a: SignalType, b: SignalType)
    ensures
        a.spec_name() == b.spec_name() <==> a == b,
{
    reveal_strlit("BUY");
    reveal_strlit("SELL");
    reveal_strlit("HOLD");
    reveal_strlit("CLOSE");
    if a != b && a.spec_name() == b.spec_name() {
        assert(a.spec_name()[0] == b.spec_name()[0]);
        assert(a.spec_name().len() == b.spec_name().len());
    }
}

} // verus!
