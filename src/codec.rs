use vstd::prelude::*;
use vstd::string::StringExecFns;

use crate::todo::{Todo, TodoView};

verus! {

/// The JSON string literal (quotes and escapes included) that serde_json
/// writes for a string.
pub uninterp spec fn json_quoted(s: Seq<char>) -> Seq<char>;

/// Relies on serde_json's `Display` for `Value`: a `Value::String` is written
/// as the JSON string literal of its text.
#[verifier::external_body]
fn quote(s: &str) -> (r: String)
    ensures
        r@ == json_quoted(s@),
{
    serde_json::Value::String(s.to_owned()).to_string()
}

/// The JSON object that stands for one task.
pub open spec fn encoded_todo(t: TodoView) -> Seq<char> {
    "{\"title\":"@ + json_quoted(t.title) + ",\"description\":"@ + json_quoted(t.description)
        + ",\"due_date\":"@ + json_quoted(t.due_date) + ",\"done\":"@ + (if t.done {
        "true"@
    } else {
        "false"@
    }) + "}"@
}

/// The objects of the tasks, in order, separated by commas.
pub open spec fn encoded_items(ts: Seq<TodoView>) -> Seq<char>
    decreases ts.len(),
{
    if ts.len() == 0 {
        Seq::empty()
    } else if ts.len() == 1 {
        encoded_todo(ts[0])
    } else {
        encoded_items(ts.drop_last()) + ","@ + encoded_todo(ts.last())
    }
}

/// The text of the backing file for a sequence of tasks: a JSON array.
pub open spec fn encoded(ts: Seq<TodoView>) -> Seq<char> {
    "["@ + encoded_items(ts) + "]"@
}

/// Writes one task as a JSON object.
pub fn encode_todo(t: &Todo) -> (r: String)
    ensures
        r@ == encoded_todo(t@),
{
    let mut out = String::from_str("{\"title\":");
    out.append(quote(t.title.as_str()).as_str());
    out.append(",\"description\":");
    out.append(quote(t.description.as_str()).as_str());
    out.append(",\"due_date\":");
    out.append(quote(t.due_date.as_str()).as_str());
    out.append(",\"done\":");
    if t.done {
        out.append("true");
    } else {
        out.append("false");
    }
    out.append("}");
    proof {
        reveal_strlit("{\"title\":");
        reveal_strlit(",\"description\":");
        reveal_strlit(",\"due_date\":");
        reveal_strlit(",\"done\":");
        reveal_strlit("true");
        reveal_strlit("false");
        reveal_strlit("}");
    }
    out
}


/// Writes a sequence of tasks as the text of the backing file.
pub fn encode_todos(ts: &Vec<Todo>) -> (r: String)
    ensures
        r@ == encoded(ts@.map_values(|t: Todo| t@)),
{
    let ghost views = ts@.map_values(|t: Todo| t@);
    let mut items = String::new();
    let mut i: usize = 0;
    while i < ts.len()
        invariant
            i <= ts.len(),
            views == ts@.map_values(|t: Todo| t@),
            items@ == encoded_items(views.subrange(0, i as int)),
        decreases ts.len() - i,
    {
        let next = encode_todo(&ts[i]);
        proof {
            reveal_strlit(",");
            let pre = views.subrange(0, i as int);
            let post = views.subrange(0, i as int + 1);
            assert(post.drop_last() =~= pre);
            assert(post.last() == ts@[i as int]@);
        }
        if i > 0 {
            items.append(",");
        }
        items.append(next.as_str());
        i = i + 1;
    }
    proof {
        assert(views.subrange(0, ts.len() as int) =~= views);
    }
    let mut out = String::from_str("[");
    out.append(items.as_str());
    out.append("]");
    proof {
        reveal_strlit("[");
        reveal_strlit("]");
    }
    out
}

} // verus!
