//! The message formatter: builds the templated status report from the two
//! entry lists, the mode flag and the day-index.

use vstd::prelude::*;
use vstd::string::StringExecFns;

use crate::stardate::{day_index, day_index_spec, dec_rep, now_unix_secs, u64_to_dec};

verus! {

/// One report line per entry: the bullet marker, the entry, a newline.
pub open spec fn bullet_line(item: Seq<char>) -> Seq<char> {
    "* "@ + item + "\n"@
}

/// The bullet lines for `items`, in their order.
pub open spec fn bullet_lines(items: Seq<Seq<char>>) -> Seq<char>
    decreases items.len(),
{
    if items.len() == 0 {
        Seq::empty()
    } else {
        bullet_lines(items.drop_last()) + bullet_line(items.last())
    }
}

/// The header over the completed items.
pub open spec fn done_header(two_day_mode: bool) -> Seq<char> {
    if two_day_mode {
        "Today:\n"@
    } else {
        "Yesterday:\n"@
    }
}

/// The header over the planned items.
pub open spec fn todo_header(two_day_mode: bool) -> Seq<char> {
    if two_day_mode {
        "Tomorrow:\n"@
    } else {
        "Today:\n"@
    }
}

/// The whole report: the tag line, the stardate line, then each list under
/// its header, one bullet line per entry.
pub open spec fn report_text(
    done: Seq<Seq<char>>,
    todo: Seq<Seq<char>>,
    two_day_mode: bool,
    day: u64,
) -> Seq<char> {
    "#checkin\n"@ + "Stardate "@ + dec_rep(day as nat) + "\n"@ + done_header(two_day_mode)
        + bullet_lines(done) + todo_header(two_day_mode) + bullet_lines(todo)
}

proof fn lemma_bullet_lines_take(items: Seq<Seq<char>>, k: int)
    requires
        0 <= k < items.len(),
    ensures
        bullet_lines(items.take(k + 1)) == bullet_lines(items.take(k)) + bullet_line(items[k]),
{
    let s = items.take(k + 1);
    assert(s.drop_last() =~= items.take(k));
    assert(s.last() == items[k]);
}

/// Appends one bullet line per entry of `items` to `buf`, in order.
fn push_bullets(buf: &mut String, items: &Vec<String>)
    ensures
        final(buf)@ == old(buf)@ + bullet_lines(items.deep_view()),
{
    let ghost head = buf@;
    let ghost dv = items.deep_view();
    let mut k: usize = 0;
    while k < items.len()
        invariant
            k <= items@.len(),
            dv == items.deep_view(),
            buf@ == head + bullet_lines(dv.take(k as int)),
        decreases items@.len() - k,
    {
        buf.append("* ");
        buf.append(items[k].as_str());
        buf.append("\n");
        proof {
            lemma_bullet_lines_take(dv, k as int);
            assert(buf@ =~= head + bullet_lines(dv.take(k + 1)));
        }
        k = k + 1;
    }
    proof {
        assert(dv.take(dv.len() as int) =~= dv);
        assert(buf@ =~= head + bullet_lines(dv));
    }
}

/// The report for the given lists, mode and instant, or the validation
/// error where either list is empty. Deterministic: at one instant, equal
/// inputs give a byte-identical report.
pub fn make_msg_at(done: &Vec<String>, todo: &Vec<String>, tomorrow: bool, now_secs: u64) -> (r:
    Result<String, String>)
    ensures
        r is Err <==> (done@.len() == 0 || todo@.len() == 0),
        r matches Err(e) ==> e@ == "Empty Done or Todo!"@,
        r matches Ok(msg) ==> msg@ == report_text(
            done.deep_view(),
            todo.deep_view(),
            tomorrow,
            day_index_spec(now_secs),
        ),
{
    if done.len() == 0 || todo.len() == 0 {
        return Err("Empty Done or Todo!".to_owned());
    }
    let stardate = day_index(now_secs);
    let mut buf = String::new();
    buf.append("#checkin\n");
    buf.append("Stardate ");
    let numeral = u64_to_dec(stardate);
    buf.append(numeral.as_str());
    buf.append("\n");
    if tomorrow {
        buf.append("Today:\n");
    } else {
        buf.append("Yesterday:\n");
    }
    push_bullets(&mut buf, done);
    if tomorrow {
        buf.append("Tomorrow:\n");
    } else {
        buf.append("Today:\n");
    }
    push_bullets(&mut buf, todo);
    proof {
        assert(buf@ =~= report_text(
            done.deep_view(),
            todo.deep_view(),
            tomorrow,
            day_index_spec(now_secs),
        ));
    }
    Ok(buf)
}

/// The report for the given lists and mode at the instant of the call, with
/// the day-index read from the wall clock, or the validation error where
/// either list is empty.
pub fn make_msg(done: Vec<String>, todo: Vec<String>, tomorrow: bool) -> (r: Result<
    String,
    String,
>)
    ensures
        r is Err <==> (done@.len() == 0 || todo@.len() == 0),
        r matches Err(e) ==> e@ == "Empty Done or Todo!"@,
        r matches Ok(msg) ==> exists|day: u64|
            msg@ == #[trigger] report_text(done.deep_view(), todo.deep_view(), tomorrow, day),
{
    let now = now_unix_secs();
    let r = make_msg_at(&done, &todo, tomorrow, now);
    proof {
        if r is Ok {
            assert(r->Ok_0@ == report_text(
                done.deep_view(),
                todo.deep_view(),
                tomorrow,
                day_index_spec(now),
            ));
        }
    }
    r
}

/// Formatting is deterministic and idempotent: two reports built from the
/// same lists, the same mode and the same instant are byte-identical.
pub proof fn lemma_report_deterministic(
    done: Seq<Seq<char>>,
    todo: Seq<Seq<char>>,
    two_day_mode: bool,
    day: u64,
    r1: Seq<char>,
    r2: Seq<char>,
)
    requires
        r1 == report_text(done, todo, two_day_mode, day),
        r2 == report_text(done, todo, two_day_mode, day),
    ensures
        r1 == r2,
{
}

} // verus!
