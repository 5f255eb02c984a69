//! Text updates for the on-screen labels.
//!
//! The core never draws. It names a label and says what the label shall read;
//! whoever owns the screen does the rest.

use vstd::prelude::*;

verus! {

/// A request to replace the text of the label called `id`.
#[derive(Debug)]
pub struct UIEvent {
    pub id: &'static str,
    pub text: String,
}

/// What a text update says: the label's name and the label's new text.
pub struct UIText {
    pub id: Seq<char>,
    pub text: Seq<char>,
}

impl View for UIEvent {
    type V = UIText;

    open spec fn view(&self) -> UIText {
        UIText { id: self.id@, text: self.text@ }
    }
}

/// The character of the decimal digit `d`.
pub open spec fn digit_char(d: nat) -> char
    recommends
        d < 10,
{
    (('0' as nat) + d) as char
}

/// `n` in decimal, without leading zeros.
pub open spec fn decimal_digits(n: nat) -> Seq<char>
    decreases n,
{
    if n < 10 {
        seq![digit_char(n)]
    } else {
        decimal_digits(n / 10).push(digit_char(n % 10))
    }
}

/// The text `"<score> of <goal>"` of the score label.
pub open spec fn score_text(score: u32, goal: u32) -> Seq<char> {
    decimal_digits(score as nat) + " of "@ + decimal_digits(goal as nat)
}

/// The text `"stage <stage>"` of the stage label.
pub open spec fn stage_text(stage: u32) -> Seq<char> {
    "stage "@ + decimal_digits(stage as nat)
}

/// Calls `format!` with `"{}"` on a `u32`, which goes through `u32`'s
/// `Display`. The contract claims what std documents of it: the number comes
/// out in decimal, most significant digit first, with no sign, padding or
/// leading zeros.
#[verifier::external_body]
fn decimal_string(n: u32) -> (text: String)
    ensures
        text@ == decimal_digits(n as nat),
{
    format!("{}", n)
}

impl UIEvent {
    /// An update that gives the label `id` a fixed text.
    pub fn fixed(id: &'static str, text: &str) -> (event: UIEvent)
        ensures
            event@ == (UIText { id: id@, text: text@ }),
    {
        UIEvent { id, text: text.to_owned() }
    }

    /// An update that clears the label `id`.
    pub fn cleared(id: &'static str) -> (event: UIEvent)
        ensures
            event@ == (UIText { id: id@, text: Seq::<char>::empty() }),
    {
        UIEvent { id, text: String::new() }
    }

    /// The update of the score label to `"<score> of <goal>"`.
    pub fn score(score: u32, goal: u32) -> (event: UIEvent)
        ensures
            event@ == (UIText { id: "score"@, text: score_text(score, goal) }),
    {
        let mut text = decimal_string(score);
        text.append(" of ");
        let goal_text = decimal_string(goal);
        text.append(goal_text.as_str());
        UIEvent { id: "score", text }
    }

    /// The update of the stage label to `"stage <stage>"`.
    pub fn stage(stage: u32) -> (event: UIEvent)
        ensures
            event@ == (UIText { id: "stage"@, text: stage_text(stage) }),
    {
        let mut text = "stage ".to_owned();
        let number = decimal_string(stage);
        text.append(number.as_str());
        UIEvent { id: "stage", text }
    }
}

} // verus!
