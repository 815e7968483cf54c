//! Command requests and the canonical JSON text of their parameters.
use vstd::prelude::*;

verus! {

/// A parameter value: a string or an integer.
#[derive(Clone, Debug)]
pub enum ParamValue {
    Text(String),
    Int(i32),
}

/// What a parameter value stands for.
pub enum ParamModel {
    Text(Seq<char>),
    Int(int),
}

impl View for ParamValue {
    type V = ParamModel;

    open spec fn view(&self) -> ParamModel {
        match self {
            ParamValue::Text(s) => ParamModel::Text(s@),
            ParamValue::Int(n) => ParamModel::Int(*n as int),
        }
    }
}

/// One member of the parameter object.
#[derive(Clone, Debug)]
pub struct Field {
    pub key: String,
    pub value: ParamValue,
}

impl View for Field {
    type V = (Seq<char>, ParamModel);

    open spec fn view(&self) -> (Seq<char>, ParamModel) {
        (self.key@, self.value@)
    }
}

/// A command for the engine and its optional parameter object, whose members
/// are written in the order given.
#[derive(Clone, Debug)]
pub struct CommandRequest {
    pub command: String,
    pub params: Option<Vec<Field>>,
}

/// The command's name and the members of its parameter object, if any.
pub struct RequestModel {
    pub command: Seq<char>,
    pub params: Option<Seq<(Seq<char>, ParamModel)>>,
}

pub open spec fn fields_model(fields: Seq<Field>) -> Seq<(Seq<char>, ParamModel)> {
    fields.map_values(|f: Field| f@)
}

impl View for CommandRequest {
    type V = RequestModel;

    open spec fn view(&self) -> RequestModel {
        RequestModel {
            command: self.command@,
            params: match self.params {
                Some(v) => Some(fields_model(v@)),
                None => None,
            },
        }
    }
}

/// The JSON string literal for a text: quoted, with the characters that JSON
/// requires escaped.
pub uninterp spec fn json_string_text(s: Seq<char>) -> Seq<char>;

/// The digit characters of a natural number in base ten.
pub open spec fn digits_text(n: nat) -> Seq<char>
    decreases n,
{
    let d = seq!['0', '1', '2', '3', '4', '5', '6', '7', '8', '9'][(n % 10) as int];
    if n < 10 {
        seq![d]
    } else {
        digits_text(n / 10).push(d)
    }
}

/// An integer in decimal, with a leading `-` when negative.
pub open spec fn decimal_text(n: int) -> Seq<char> {
    if n < 0 {
        seq!['-'] + digits_text((-n) as nat)
    } else {
        digits_text(n as nat)
    }
}

pub open spec fn value_text(v: ParamModel) -> Seq<char> {
    match v {
        ParamModel::Text(s) => json_string_text(s),
        ParamModel::Int(n) => decimal_text(n),
    }
}

pub open spec fn member_text(f: (Seq<char>, ParamModel)) -> Seq<char> {
    json_string_text(f.0) + seq![':'] + value_text(f.1)
}

/// The members of an object, separated by commas.
pub open spec fn members_text(fs: Seq<(Seq<char>, ParamModel)>) -> Seq<char>
    decreases fs.len(),
{
    if fs.len() == 0 {
        Seq::empty()
    } else if fs.len() == 1 {
        member_text(fs[0])
    } else {
        members_text(fs.drop_last()) + seq![','] + member_text(fs.last())
    }
}

/// The compact JSON text of the parameters: `{}` when there are none.
pub open spec fn params_text(params: Option<Seq<(Seq<char>, ParamModel)>>) -> Seq<char> {
    match params {
        None => seq!['{', '}'],
        Some(fs) => seq!['{'] + members_text(fs) + seq!['}'],
    }
}

/// Relies on serde_json's `Display` for `Value::String`: the text as a JSON
/// string literal, in compact form.
#[verifier::external_body]
fn json_string(s: &str) -> (r: String)
    ensures
        r@ == json_string_text(s@),
{
    serde_json::Value::String(s.to_string()).to_string()
}

/// Relies on serde_json's `Display` for a `Value` made from an `i32`: the
/// number in decimal, written by `itoa`.
#[verifier::external_body]
fn json_int(n: i32) -> (r: String)
    ensures
        r@ == decimal_text(n as int),
{
    serde_json::Value::from(n).to_string()
}

fn value_json(v: &ParamValue) -> (r: String)
    ensures
        r@ == value_text(v@),
{
    match v {
        ParamValue::Text(s) => json_string(s.as_str()),
        ParamValue::Int(n) => json_int(*n),
    }
}

/// Writes one member of an object: the quoted key, a colon, the value.
pub fn member_json(f: &Field) -> (r: String)
    ensures
        r@ == member_text(f@),
{
    let mut r = json_string(f.key.as_str());
    proof {
        reveal_strlit(":");
    }
    r.append(":");
    let v = value_json(&f.value);
    r.append(v.as_str());
    r
}

/// The canonical JSON text of a parameter object: `{}` when it is absent.
pub fn canonical_params(params: &Option<Vec<Field>>) -> (r: String)
    ensures
        r@ == params_text(
            match params {
                Some(v) => Some(fields_model(v@)),
                None => None,
            },
        ),
{
    match params {
        None => {
            proof {
                reveal_strlit("{}");
            }
            String::from_str("{}")
        },
        Some(fields) => {
            let ghost fs = fields_model(fields@);
            let mut body = String::new();
            let mut i: usize = 0;
            while i < fields.len()
                invariant
                    i <= fields@.len(),
                    fs == fields_model(fields@),
                    body@ == members_text(fs.take(i as int)),
                decreases fields@.len() - i,
            {
                let m = member_json(&fields[i]);
                proof {
                    reveal_strlit(",");
                    assert(fs[i as int] == fields@[i as int]@);
                    assert(fs.take(i as int + 1).drop_last() =~= fs.take(i as int));
                    assert(fs.take(i as int + 1).last() == fs[i as int]);
                }
                if i > 0 {
                    body.append(",");
                } else {
                    assert(fs.take(1) =~= seq![fs[0]]);
                }
                body.append(m.as_str());
                i = i + 1;
            }
            assert(fs.take(fields@.len() as int) =~= fs);
            proof {
                reveal_strlit("{");
                reveal_strlit("}");
            }
            let mut r = String::from_str("{");
            r.append(body.as_str());
            r.append("}");
            r
        },
    }
}

} // verus!
