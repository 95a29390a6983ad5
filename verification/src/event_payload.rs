//! The payload forwarded to the front end for a task event reported by the
//! resolver: the event type mapped to the front end's names, defaults for a
//! missing type or status, and the known fields copied through. Values other
//! than texts are carried untouched by the caller; here they are tokens.

use vstd::prelude::*;
use crate::text::{str_eq, to_owned_string};

verus! {

/// A value of the event data: a text, or another value the caller keeps
/// (named by a token).
#[derive(Debug, Clone, PartialEq, Eq)]
pub enum FieldValue {
    Text(String),
    Other(u64),
}

/// A value seen as a text or a token.
pub enum ValueView {
    Text(Seq<char>),
    Other(u64),
}

/// The value seen as a [`ValueView`].
pub open spec fn value_view(v: FieldValue) -> ValueView {
    match v {
        FieldValue::Text(s) => ValueView::Text(s@),
        FieldValue::Other(n) => ValueView::Other(n),
    }
}

/// The entries seen as (key, value) views.
pub open spec fn entry_views(e: Seq<(String, FieldValue)>) -> Seq<(Seq<char>, ValueView)> {
    e.map_values(|x: (String, FieldValue)| (x.0@, value_view(x.1)))
}

/// The value of the first entry named `key`, from `j` on.
pub open spec fn field(d: Seq<(Seq<char>, ValueView)>, key: Seq<char>, j: int) -> Option<ValueView>
    decreases d.len() - j,
{
    if j < 0 || j >= d.len() {
        None
    } else if d[j].0 == key {
        Some(d[j].1)
    } else {
        field(d, key, j + 1)
    }
}

/// The text of a field, when it is a text.
pub open spec fn text_field(d: Seq<(Seq<char>, ValueView)>, key: Seq<char>) -> Option<Seq<char>> {
    match field(d, key, 0) {
        Some(ValueView::Text(s)) => Some(s),
        _ => None,
    }
}

/// The front end's name of a resolver event type: `finished` becomes
/// `completed`; `started` stays; anything else is `progress`.
pub open spec fn mapped_event_type(t: Option<Seq<char>>) -> Seq<char> {
    match t {
        Some(s) => if s == "started"@ {
            "started"@
        } else if s == "finished"@ {
            "completed"@
        } else {
            "progress"@
        },
        None => "progress"@,
    }
}

/// The fields copied from the data, in order.
pub open spec fn copied_fields() -> Seq<Seq<char>> {
    seq![
        "total"@, "completed"@, "failed"@, "skipped"@, "current_item"@, "error_msg"@, "error"@, "title"@,
        "nickname"@, "room_id"@, "web_rid"@, "file"@, "file_size"@, "duration_sec"@, "started_at"@,
        "ended_at"@, "cover_url"@, "type"@,
    ]
}

/// The copies of the first `n` copied fields that the data has.
pub open spec fn copies(d: Seq<(Seq<char>, ValueView)>, n: int) -> Seq<(Seq<char>, ValueView)>
    decreases n,
{
    if n <= 0 || n > copied_fields().len() {
        Seq::empty()
    } else {
        let prev = copies(d, n - 1);
        let k = copied_fields()[n - 1];
        match field(d, k, 0) {
            Some(v) => prev.push((k, v)),
            None => prev,
        }
    }
}

/// The `data` object of the payload: the mapped event type, the task id,
/// the mode and URL when given as texts, the status (`running` unless
/// given as a text), then the copied fields the data has.
pub open spec fn payload_data(task_id: Seq<char>, d: Seq<(Seq<char>, ValueView)>) -> Seq<(Seq<char>, ValueView)> {
    let head = seq![
        ("event_type"@, ValueView::Text(mapped_event_type(text_field(d, "event_type"@)))),
        ("task_id"@, ValueView::Text(task_id)),
    ];
    let with_mode = match text_field(d, "mode"@) {
        Some(m) => head.push(("mode"@, ValueView::Text(m))),
        None => head,
    };
    let with_url = match text_field(d, "url"@) {
        Some(u) => with_mode.push(("url"@, ValueView::Text(u))),
        None => with_mode,
    };
    let status = match text_field(d, "status"@) {
        Some(s) => s,
        None => "running"@,
    };
    with_url.push(("status"@, ValueView::Text(status))) + copies(d, copied_fields().len() as int)
}

/// The payload of a forwarded event.
#[derive(Debug)]
pub struct EventPayload {
    pub task_id: String,
    /// Always `typed`.
    pub task_type: String,
    pub data: Vec<(String, FieldValue)>,
}

/// The value of the first entry named `key`.
fn get_field(d: &Vec<(String, FieldValue)>, key: &str) -> (res: Option<FieldValue>)
    ensures
        match res {
            Some(v) => field(entry_views(d@), key@, 0) == Some(value_view(v)),
            None => field(entry_views(d@), key@, 0) is None,
        },
{
    let ghost dv = entry_views(d@);
    let mut j: usize = 0;
    while j < d.len()
        invariant
            dv == entry_views(d@),
            j <= d@.len(),
            field(dv, key@, 0) == field(dv, key@, j as int),
        decreases d@.len() - j,
    {
        proof {
            assert(dv[j as int] == (d@[j as int].0@, value_view(d@[j as int].1)));
        }
        if str_eq(d[j].0.as_str(), key) {
            let v = match &d[j].1 {
                FieldValue::Text(s) => FieldValue::Text(s.clone()),
                FieldValue::Other(n) => FieldValue::Other(*n),
            };
            return Some(v);
        }
        j = j + 1;
    }
    None
}

/// The text of a field, when it is a text.
fn get_text(d: &Vec<(String, FieldValue)>, key: &str) -> (res: Option<String>)
    ensures
        match res {
            Some(s) => text_field(entry_views(d@), key@) == Some(s@),
            None => text_field(entry_views(d@), key@) is None,
        },
{
    match get_field(d, key) {
        Some(FieldValue::Text(s)) => Some(s),
        _ => None,
    }
}

/// Builds the payload forwarded for an event of a resolver task; the
/// resolver's own task type is not used: the payload is always `typed`.
pub fn format_event_payload(task_id: &str, python_task_type: &str, data: &Vec<(String, FieldValue)>) -> (res:
    EventPayload)
    ensures
        res.task_id@ == task_id@,
        res.task_type@ == "typed"@,
        entry_views(res.data@) == payload_data(task_id@, entry_views(data@)),
{
    let ghost dv = entry_views(data@);
    let event_type = match get_text(data, "event_type") {
        Some(t) => if str_eq(t.as_str(), "started") {
            "started"
        } else if str_eq(t.as_str(), "finished") {
            "completed"
        } else {
            "progress"
        },
        None => "progress",
    };
    let mut out: Vec<(String, FieldValue)> = Vec::new();
    out.push((to_owned_string("event_type"), FieldValue::Text(to_owned_string(event_type))));
    out.push((to_owned_string("task_id"), FieldValue::Text(to_owned_string(task_id))));
    match get_text(data, "mode") {
        Some(m) => out.push((to_owned_string("mode"), FieldValue::Text(m))),
        None => {},
    }
    match get_text(data, "url") {
        Some(u) => out.push((to_owned_string("url"), FieldValue::Text(u))),
        None => {},
    }
    let status = match get_text(data, "status") {
        Some(s) => s,
        None => to_owned_string("running"),
    };
    out.push((to_owned_string("status"), FieldValue::Text(status)));
    let ghost base = entry_views(out@);
    proof {
        let head = seq![
            ("event_type"@, ValueView::Text(mapped_event_type(text_field(dv, "event_type"@)))),
            ("task_id"@, ValueView::Text(task_id@)),
        ];
        let with_mode = match text_field(dv, "mode"@) {
            Some(m) => head.push(("mode"@, ValueView::Text(m))),
            None => head,
        };
        let with_url = match text_field(dv, "url"@) {
            Some(u) => with_mode.push(("url"@, ValueView::Text(u))),
            None => with_mode,
        };
        let st = match text_field(dv, "status"@) {
            Some(s) => s,
            None => "running"@,
        };
        assert(base =~= with_url.push(("status"@, ValueView::Text(st))));
    }
    let keys: [&str; 18] = [
        "total", "completed", "failed", "skipped", "current_item", "error_msg", "error", "title", "nickname",
        "room_id", "web_rid", "file", "file_size", "duration_sec", "started_at", "ended_at", "cover_url", "type",
    ];
    proof {
        assert forall|k: int| 0 <= k < 18 implies (#[trigger] keys@[k])@ == copied_fields()[k] by {}
    }
    let mut i: usize = 0;
    while i < 18
        invariant
            i <= 18,
            dv == entry_views(data@),
            forall|k: int| 0 <= k < 18 ==> (#[trigger] keys@[k])@ == copied_fields()[k],
            entry_views(out@) == base + copies(dv, i as int),
        decreases 18 - i,
    {
        let k = keys[i];
        proof {
            assert(keys@[i as int]@ == copied_fields()[i as int]);
        }
        match get_field(data, k) {
            Some(v) => {
                let ghost before = entry_views(out@);
                let ghost vv = value_view(v);
                out.push((to_owned_string(k), v));
                proof {
                    assert(entry_views(out@) =~= before.push((k@, vv)));
                    assert(base + copies(dv, i + 1) =~= (base + copies(dv, i as int)).push((k@, vv)));
                }
            },
            None => {},
        }
        i = i + 1;
    }
    EventPayload { task_id: to_owned_string(task_id), task_type: to_owned_string("typed"), data: out }
}

} // verus!
