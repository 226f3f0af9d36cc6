//! The response payload: a JSON object with the candidate texts and the
//! preedit text of the session's composition.
use vstd::prelude::*;

verus! {

/// A snapshot of the session's composition: the text being composed, if
/// any, and the candidate texts in the engine's ranking order.
#[derive(Debug)]
pub struct Composition {
    pub preedit: Option<String>,
    pub candidates: Vec<String>,
}

/// The JSON string literal, quotes included, that serde_json writes for `s`.
pub uninterp spec fn json_string(s: Seq<char>) -> Seq<char>;

/// Relies on serde_json's `Display` for `Value::String`: the compact JSON
/// text of the string value, which depends on the characters of `s` alone.
#[verifier::external_body]
fn json_text(s: &str) -> (r: String)
    ensures
        r@ == json_string(s@),
{
    serde_json::Value::String(s.to_string()).to_string()
}

pub open spec fn string_views(v: Seq<String>) -> Seq<Seq<char>> {
    v.map_values(|s: String| s@)
}

/// The preedit text of a composition, empty when there is none.
pub open spec fn preedit_text(c: &Composition) -> Seq<char> {
    match c.preedit {
        Some(p) => p@,
        None => Seq::empty(),
    }
}

/// The items one after another, with a comma between each two.
pub open spec fn comma_joined(items: Seq<Seq<char>>) -> Seq<char>
    decreases items.len(),
{
    if items.len() == 0 {
        Seq::empty()
    } else if items.len() == 1 {
        items[0]
    } else {
        comma_joined(items.drop_last()) + ","@ + items.last()
    }
}

/// The payload text for an already quoted preedit and already quoted
/// candidates: `{"candidates":[..],"preedit":..}`.
pub open spec fn payload_text(preedit_json: Seq<char>, candidates_json: Seq<Seq<char>>) -> Seq<
    char,
> {
    "{\"candidates\":["@ + comma_joined(candidates_json) + "],\"preedit\":"@ + preedit_json + "}"@
}

/// The payload text that a composition is reported as.
pub open spec fn response_text(c: &Composition) -> Seq<char> {
    payload_text(
        json_string(preedit_text(c)),
        string_views(c.candidates@).map_values(|s: Seq<char>| json_string(s)),
    )
}

/// Builds the payload object from an already quoted preedit and already
/// quoted candidate texts.
pub fn encode_payload(preedit_json: &str, candidates_json: &Vec<String>) -> (r: String)
    ensures
        r@ == payload_text(preedit_json@, string_views(candidates_json@)),
{
    let ghost items = string_views(candidates_json@);
    let ghost head = "{\"candidates\":["@;
    let mut out = String::from_str("{\"candidates\":[");
    let mut i: usize = 0;
    while i < candidates_json.len()
        invariant
            i <= candidates_json@.len(),
            items == string_views(candidates_json@),
            head == "{\"candidates\":["@,
            out@ == head + comma_joined(items.take(i as int)),
        decreases candidates_json@.len() - i,
    {
        let ghost before = out@;
        assert(items.take(i + 1).drop_last() =~= items.take(i as int));
        if i > 0 {
            out.append(",");
        }
        out.append(candidates_json[i].as_str());
        if i == 0 {
            assert(comma_joined(items.take(1)) == items[0]);
            assert(out@ =~= head + comma_joined(items.take(1)));
        } else {
            assert(out@ =~= head + comma_joined(items.take(i + 1)));
        }
        i = i + 1;
    }
    assert(items.take(i as int) =~= items);
    out.append("],\"preedit\":");
    out.append(preedit_json);
    out.append("}");
    out
}

/// Encodes a composition as the response payload.
pub fn encode_response(c: &Composition) -> (r: String)
    ensures
        r@ == response_text(c),
{
    let preedit_json = match &c.preedit {
        Some(p) => {
            let q = json_text(p.as_str());
            assert(q@ == json_string(preedit_text(c)));
            q
        },
        None => {
            proof {
                reveal_strlit("");
            }
            let q = json_text("");
            assert(""@ =~= preedit_text(c));
            q
        },
    };
    let ghost quoted = string_views(c.candidates@).map_values(|s: Seq<char>| json_string(s));
    let mut candidates_json: Vec<String> = Vec::new();
    let mut i: usize = 0;
    while i < c.candidates.len()
        invariant
            i <= c.candidates@.len(),
            candidates_json@.len() == i,
            forall|k: int|
                0 <= k < i ==> (#[trigger] candidates_json@[k])@ == json_string(
                    c.candidates@[k]@,
                ),
        decreases c.candidates@.len() - i,
    {
        let q = json_text(c.candidates[i].as_str());
        candidates_json.push(q);
        i = i + 1;
    }
    assert(string_views(candidates_json@) =~= quoted);
    encode_payload(preedit_json.as_str(), &candidates_json)
}

} // verus!
