//! The charge-control modes of the battery and their text form.

use vstd::prelude::*;

use crate::text::{same_text, trim, trimmed, white_space};

verus! {

/// How the device treats the battery.
#[derive(Debug, Clone, Copy, PartialEq, Eq, Structural)]
pub enum ChargeBehaviour {
    /// The device charges as it sees fit, towards full.
    Auto,
    /// The device drains the battery, whatever the load.
    ForceDischarge,
    /// The device neither charges nor drains: charging is paused.
    InhibitCharge,
}

/// The text read was none of the three that stand for a behaviour.
#[derive(Debug, Clone, Copy, PartialEq, Eq, Structural)]
pub struct UnknownBehaviour;

/// The behaviour that `s` stands for once the white space at its ends is
/// gone. Letter case counts, and nothing but the three texts is accepted.
pub open spec fn parse_behaviour(s: Seq<char>) -> Result<ChargeBehaviour, UnknownBehaviour> {
    let t = trimmed(s);
    if t == ChargeBehaviour::Auto.text() {
        Ok(ChargeBehaviour::Auto)
    } else if t == ChargeBehaviour::ForceDischarge.text() {
        Ok(ChargeBehaviour::ForceDischarge)
    } else if t == ChargeBehaviour::InhibitCharge.text() {
        Ok(ChargeBehaviour::InhibitCharge)
    } else {
        Err(UnknownBehaviour)
    }
}

impl ChargeBehaviour {
    /// The text that stands for the behaviour in the device file.
    pub open spec fn text(self) -> Seq<char> {
        match self {
            ChargeBehaviour::Auto => "auto"@,
            ChargeBehaviour::ForceDischarge => "force-discharge"@,
            ChargeBehaviour::InhibitCharge => "inhibit-charge"@,
        }
    }

    /// The behaviour's text, borrowed.
    pub fn as_str(&self) -> (s: &'static str)
        ensures
            s@ == self.text(),
    {
        match self {
            ChargeBehaviour::Auto => "auto",
            ChargeBehaviour::ForceDischarge => "force-discharge",
            ChargeBehaviour::InhibitCharge => "inhibit-charge",
        }
    }

    /// The behaviour's text, as it is written to the device file.
    pub fn to_string(&self) -> (s: String)
        ensures
            s@ == self.text(),
    {
        self.as_str().to_owned()
    }
}

impl std::str::FromStr for ChargeBehaviour {
    type Err = UnknownBehaviour;

    /// Reads a behaviour from text. White space at either end is ignored;
    /// what is left must be exactly one of the three texts.
    fn from_str(s: &str) -> (r: Result<Self, Self::Err>)
        ensures
            r == parse_behaviour(s@),
            r matches Ok(b) ==> trimmed(s@) == b.text(),
            r is Err <==> trimmed(s@) != ChargeBehaviour::Auto.text() && trimmed(s@)
                != ChargeBehaviour::ForceDischarge.text() && trimmed(s@)
                != ChargeBehaviour::InhibitCharge.text(),
    {
        let t = trim(s);
        if same_text(t, ChargeBehaviour::Auto.as_str()) {
            Ok(ChargeBehaviour::Auto)
        } else if same_text(t, ChargeBehaviour::ForceDischarge.as_str()) {
            Ok(ChargeBehaviour::ForceDischarge)
        } else if same_text(t, ChargeBehaviour::InhibitCharge.as_str()) {
            Ok(ChargeBehaviour::InhibitCharge)
        } else {
            Err(UnknownBehaviour)
        }
    }
}

/// No two behaviours share a text.
pub proof fn lemma_texts_differ(a: ChargeBehaviour, b: ChargeBehaviour)
    ensures
        a.text() == b.text() <==> a == b,
{
    reveal_strlit("auto");
    reveal_strlit("force-discharge");
    reveal_strlit("inhibit-charge");
    assert(ChargeBehaviour::Auto.text().len() == 4);
    assert(ChargeBehaviour::ForceDischarge.text().len() == 15);
    assert(ChargeBehaviour::InhibitCharge.text().len() == 14);
}

/// A behaviour's text has no white space at its ends, so trimming leaves it
/// as it is.
pub proof fn lemma_text_is_trimmed(b: ChargeBehaviour)
    ensures
        trimmed(b.text()) == b.text(),
{
    reveal_strlit("auto");
    reveal_strlit("force-discharge");
    reveal_strlit("inhibit-charge");
    let t = b.text();
    assert(!white_space(t.first()) && !white_space(t.last()));
}

/// Writing a behaviour and reading the text back gives the behaviour again.
pub proof fn law_round_trip(b: ChargeBehaviour)
    ensures
        parse_behaviour(b.text()) == Ok::<ChargeBehaviour, UnknownBehaviour>(b),
{
    lemma_text_is_trimmed(b);
    lemma_texts_differ(b, ChargeBehaviour::Auto);
    lemma_texts_differ(b, ChargeBehaviour::ForceDischarge);
    lemma_texts_differ(b, ChargeBehaviour::InhibitCharge);
}

/// Reading succeeds on the three texts and on nothing else: `s` is read as
/// `b` exactly when `s`, without the white space at its ends, is the text of
/// `b`, and is refused exactly when it is the text of no behaviour.
pub proof fn law_parse_exact(s: Seq<char>, b: ChargeBehaviour)
    ensures
        parse_behaviour(s) == Ok::<ChargeBehaviour, UnknownBehaviour>(b) <==> trimmed(s)
            == b.text(),
        parse_behaviour(s) is Err <==> forall|c: ChargeBehaviour| trimmed(s) != #[trigger] c.text(),
{
    lemma_texts_differ(b, ChargeBehaviour::Auto);
    lemma_texts_differ(b, ChargeBehaviour::ForceDischarge);
    lemma_texts_differ(b, ChargeBehaviour::InhibitCharge);
    lemma_texts_differ(ChargeBehaviour::Auto, ChargeBehaviour::ForceDischarge);
    lemma_texts_differ(ChargeBehaviour::Auto, ChargeBehaviour::InhibitCharge);
    lemma_texts_differ(ChargeBehaviour::ForceDischarge, ChargeBehaviour::InhibitCharge);
    if parse_behaviour(s) is Err {
        assert forall|c: ChargeBehaviour| trimmed(s) != #[trigger] c.text() by {
            match c {
                ChargeBehaviour::Auto => {},
                ChargeBehaviour::ForceDischarge => {},
                ChargeBehaviour::InhibitCharge => {},
            }
        }
    } else {
        let c = parse_behaviour(s)->Ok_0;
        assert(trimmed(s) == c.text());
    }
}

} // verus!
