//! The priority of a message.

use crate::text::same_text;
use vstd::prelude::*;

verus! {

/// How urgently a message is delivered.
#[derive(Debug, Clone, Copy, PartialEq, Eq, Structural)]
pub enum MessagePriority {
    /// No notification is generated.
    Lowest,
    /// No sound and no vibration.
    Low,
    /// Sound, vibration and an alert as the device is set up.
    Normal,
    /// Bypasses the quiet hours of the user.
    High,
}

impl MessagePriority {
    /// The number that stands for this priority on the wire.
    pub open spec fn number(self) -> int {
        match self {
            MessagePriority::Lowest => -2,
            MessagePriority::Low => -1,
            MessagePriority::Normal => 0,
            MessagePriority::High => 1,
        }
    }

    /// The priority that `number` stands for on the wire.
    pub open spec fn of_number(number: int) -> Option<MessagePriority> {
        if number == -2 {
            Some(MessagePriority::Lowest)
        } else if number == -1 {
            Some(MessagePriority::Low)
        } else if number == 0 {
            Some(MessagePriority::Normal)
        } else if number == 1 {
            Some(MessagePriority::High)
        } else {
            None
        }
    }

    /// The numeral that names this priority.
    pub open spec fn numeral(self) -> Seq<char> {
        match self {
            MessagePriority::Lowest => "-2"@,
            MessagePriority::Low => "-1"@,
            MessagePriority::Normal => "0"@,
            MessagePriority::High => "1"@,
        }
    }

    /// The word that names this priority.
    pub open spec fn word(self) -> Seq<char> {
        match self {
            MessagePriority::Lowest => "lowest"@,
            MessagePriority::Low => "low"@,
            MessagePriority::Normal => "normal"@,
            MessagePriority::High => "high"@,
        }
    }

    /// The priority that `text` names, by its numeral or by its word, in
    /// exactly these letters.
    pub open spec fn of_text(text: Seq<char>) -> Option<MessagePriority> {
        if text == MessagePriority::Lowest.numeral() || text == MessagePriority::Lowest.word() {
            Some(MessagePriority::Lowest)
        } else if text == MessagePriority::Low.numeral() || text == MessagePriority::Low.word() {
            Some(MessagePriority::Low)
        } else if text == MessagePriority::Normal.numeral() || text
            == MessagePriority::Normal.word() {
            Some(MessagePriority::Normal)
        } else if text == MessagePriority::High.numeral() || text == MessagePriority::High.word() {
            Some(MessagePriority::High)
        } else {
            None
        }
    }

    /// The number that stands for this priority on the wire.
    pub fn value(self) -> (number: i8)
        ensures
            number == self.number(),
    {
        match self {
            MessagePriority::Lowest => -2,
            MessagePriority::Low => -1,
            MessagePriority::Normal => 0,
            MessagePriority::High => 1,
        }
    }

    /// The priority that `number` stands for on the wire, if any.
    pub fn from_value(number: i64) -> (priority: Option<MessagePriority>)
        ensures
            priority == MessagePriority::of_number(number as int),
    {
        if number == -2 {
            Some(MessagePriority::Lowest)
        } else if number == -1 {
            Some(MessagePriority::Low)
        } else if number == 0 {
            Some(MessagePriority::Normal)
        } else if number == 1 {
            Some(MessagePriority::High)
        } else {
            None
        }
    }

    /// The priority that `input` names, or `None` where it names none.
    pub fn from_text(input: &str) -> (priority: Option<MessagePriority>)
        ensures
            priority == MessagePriority::of_text(input@),
    {
        if same_text(input, "-2") || same_text(input, "lowest") {
            Some(MessagePriority::Lowest)
        } else if same_text(input, "-1") || same_text(input, "low") {
            Some(MessagePriority::Low)
        } else if same_text(input, "0") || same_text(input, "normal") {
            Some(MessagePriority::Normal)
        } else if same_text(input, "1") || same_text(input, "high") {
            Some(MessagePriority::High)
        } else {
            None
        }
    }

    /// The priority that `input` names. The caller has made sure that it
    /// names one.
    pub fn from(input: &str) -> (priority: MessagePriority)
        requires
            MessagePriority::of_text(input@) is Some,
        ensures
            MessagePriority::of_text(input@) == Some(priority),
    {
        match MessagePriority::from_text(input) {
            Some(priority) => priority,
            None => unreached(),
        }
    }
}

/// The numeral and the word of a priority both name it, and nothing else
/// does: the eight names are all the texts that name a priority.
pub proof fn lemma_priority_names(priority: MessagePriority, text: Seq<char>)
    ensures
        MessagePriority::of_text(priority.numeral()) == Some(priority),
        MessagePriority::of_text(priority.word()) == Some(priority),
        MessagePriority::of_text(text) == Some(priority) <==> text == priority.numeral() || text
            == priority.word(),
{
    reveal_strlit("-2");
    reveal_strlit("-1");
    reveal_strlit("0");
    reveal_strlit("1");
    reveal_strlit("lowest");
    reveal_strlit("low");
    reveal_strlit("normal");
    reveal_strlit("high");
    assert("-2"@.len() == 2 && "-1"@.len() == 2 && "0"@.len() == 1 && "1"@.len() == 1);
    assert("lowest"@.len() == 6 && "low"@.len() == 3 && "normal"@.len() == 6 && "high"@.len()
        == 4);
    assert("-2"@[1] == '2' && "-1"@[1] == '1');
    assert("0"@[0] == '0' && "1"@[0] == '1');
    assert("lowest"@[0] == 'l' && "normal"@[0] == 'n');
}

/// The number of a priority on the wire stands for that priority and for no
/// other.
pub proof fn lemma_priority_numbers(priority: MessagePriority, number: int)
    ensures
        MessagePriority::of_number(priority.number()) == Some(priority),
        MessagePriority::of_number(number) == Some(priority) <==> number == priority.number(),
{
}

} // verus!
