//! The text of a report: a line that counts the records of a selection, and
//! a line for each of them.

use crate::activity::Activity;
use crate::activity::ActivityFilteredList;
use crate::activity::IActivity;
use crate::event::Event;
use crate::time::Instant;
use vstd::prelude::*;

verus! {

/// The character of a decimal digit.
pub open spec fn digit(d: nat) -> char {
    if d == 0 {
        '0'
    } else if d == 1 {
        '1'
    } else if d == 2 {
        '2'
    } else if d == 3 {
        '3'
    } else if d == 4 {
        '4'
    } else if d == 5 {
        '5'
    } else if d == 6 {
        '6'
    } else if d == 7 {
        '7'
    } else if d == 8 {
        '8'
    } else {
        '9'
    }
}

/// A number in decimal digits, without leading zeros.
pub open spec fn decimal(n: nat) -> Seq<char>
    decreases n,
{
    if n < 10 {
        seq![digit(n)]
    } else {
        decimal(n / 10).push(digit(n % 10))
    }
}

/// The line that counts the records of a kind to which an event happened.
pub open spec fn header_line(count: nat, kind: Seq<char>, event: Event) -> Seq<char> {
    decimal(count) + " "@ + kind + "s "@ + event.spec_past_tense() + "\n"@
}

/// The line of one record: its number, the event with the time at which it
/// happened, the author and the title.
pub open spec fn detail_line<T: IActivity>(activity: Activity<T>, event: Event) -> Seq<char> {
    "\t#"@ + decimal(activity.0.spec_number() as nat) + " ("@ + event.spec_past_tense() + " "@
        + activity.0.spec_event_time(event)->0.spec_local_text() + ") by @"@
        + activity.0.spec_author() + ": "@ + activity.0.spec_title() + "\n"@
}

/// The lines of the records, in their order.
pub open spec fn detail_lines<T: IActivity>(items: Seq<Activity<T>>, event: Event) -> Seq<char>
    decreases items.len(),
{
    if items.len() == 0 {
        Seq::<char>::empty()
    } else {
        detail_lines(items.drop_last(), event) + detail_line(items.last(), event)
    }
}

/// The whole report on a selection: the counting line, then the lines of
/// the records.
pub open spec fn report_text<T: IActivity>(items: Seq<Activity<T>>, event: Event) -> Seq<char> {
    header_line(items.len(), T::spec_name(), event) + detail_lines(items, event)
}

/// The text of one decimal digit.
pub fn digit_str(d: u64) -> (r: &'static str)
    requires
        d < 10,
    ensures
        r@ == seq![digit(d as nat)],
{
    proof {
        reveal_strlit("0");
        reveal_strlit("1");
        reveal_strlit("2");
        reveal_strlit("3");
        reveal_strlit("4");
        reveal_strlit("5");
        reveal_strlit("6");
        reveal_strlit("7");
        reveal_strlit("8");
        reveal_strlit("9");
    }
    let r = if d == 0 {
        "0"
    } else if d == 1 {
        "1"
    } else if d == 2 {
        "2"
    } else if d == 3 {
        "3"
    } else if d == 4 {
        "4"
    } else if d == 5 {
        "5"
    } else if d == 6 {
        "6"
    } else if d == 7 {
        "7"
    } else if d == 8 {
        "8"
    } else {
        "9"
    };
    proof {
        assert(r@ =~= seq![digit(d as nat)]);
    }
    r
}

/// Writes a number in decimal digits at the end of a text.
pub fn push_decimal(out: &mut String, n: u64)
    ensures
        final(out)@ == old(out)@ + decimal(n as nat),
    decreases n,
{
    if n >= 10 {
        push_decimal(out, n / 10);
    }
    out.append(digit_str(n % 10));
    proof {
        assert(final(out)@ =~= old(out)@ + decimal(n as nat));
    }
}

/// Writes an event in its past tense at the end of a text.
pub fn push_past_tense(out: &mut String, event: Event)
    ensures
        final(out)@ == old(out)@ + event.spec_past_tense(),
{
    out.append(event.name());
    out.append(event.past_tense_suffix());
    proof {
        assert(final(out)@ =~= old(out)@ + event.spec_past_tense());
    }
}

/// Writes the counting line at the end of a text.
pub fn push_header_line(out: &mut String, count: usize, kind: &str, event: Event)
    ensures
        final(out)@ == old(out)@ + header_line(count as nat, kind@, event),
{
    push_decimal(out, count as u64);
    out.append(" ");
    out.append(kind);
    out.append("s ");
    push_past_tense(out, event);
    out.append("\n");
    proof {
        assert(final(out)@ =~= old(out)@ + header_line(count as nat, kind@, event));
    }
}

/// Writes the line of one record at the end of a text.
pub fn push_detail_line<T: IActivity>(out: &mut String, activity: &Activity<T>, event: Event)
    requires
        activity.0.spec_event_time(event) is Some,
    ensures
        final(out)@ == old(out)@ + detail_line(*activity, event),
{
    let time: Instant = activity.event_time(event).unwrap();
    let time_text = time.local_text();
    out.append("\t#");
    push_decimal(out, activity.number());
    out.append(" (");
    push_past_tense(out, event);
    out.append(" ");
    out.append(time_text.as_str());
    out.append(") by @");
    out.append(activity.author());
    out.append(": ");
    out.append(activity.title());
    out.append("\n");
    proof {
        assert(final(out)@ =~= old(out)@ + detail_line(*activity, event));
    }
}

impl<'a, T: IActivity> ActivityFilteredList<'a, T> {
    /// The report on the selection: a line with the number of the records,
    /// the kind and the event, then one line for each record.
    pub fn render(&self) -> (r: String)
        requires
            self.well_formed(),
        ensures
            r@ == report_text(self.items(), self.event),
    {
        let mut out = String::new();
        push_header_line(&mut out, self.all.len(), T::name(), self.event);
        let ghost header = out@;
        let ghost items = self.items();
        let mut i: usize = 0;
        proof {
            assert(header =~= header_line(items.len(), T::spec_name(), self.event));
            assert(items.take(0) =~= Seq::<Activity<T>>::empty());
            assert(out@ =~= header + detail_lines(items.take(0), self.event));
        }
        while i < self.all.len()
            invariant
                0 <= i <= self.all@.len(),
                self.well_formed(),
                items == self.items(),
                items.len() == self.all@.len(),
                out@ == header + detail_lines(items.take(i as int), self.event),
            decreases self.all@.len() - i,
        {
            let activity: &Activity<T> = self.all[i];
            let ghost before = out@;
            proof {
                assert(items[i as int] == *activity);
                assert(items.take(i + 1).drop_last() =~= items.take(i as int));
                assert(items.take(i + 1).last() == *activity);
            }
            push_detail_line(&mut out, activity, self.event);
            proof {
                assert(out@ =~= header + detail_lines(items.take(i + 1), self.event));
            }
            i = i + 1;
        }
        proof {
            assert(items.take(i as int) =~= items);
        }
        out
    }
}

} // verus!
