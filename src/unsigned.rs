//! Side data of an event that the homeserver does not sign.
use vstd::prelude::*;

use crate::fields::{
    opt_int_field, opt_string_field, read_opt_int, read_opt_string, Field, FieldError, Problem,
};
use crate::js::MAX_SAFE_INT;
use crate::json::{entry, lemma_entry_absent, lemma_entry_first, JsonNumber, JsonValue};

verus! {

/// Additional key-value pairs not signed by the homeserver.
#[derive(Clone, Debug, PartialEq, Eq)]
pub struct UnsignedData {
    /// The time in milliseconds that has elapsed since the event was sent.
    pub age: Option<i64>,
    /// The client-supplied transaction ID, if the client being given the
    /// event is the one that sent it.
    pub transaction_id: Option<String>,
}

/// Unsigned data with nothing in it.
pub open spec fn empty_unsigned() -> UnsignedData {
    UnsignedData { age: None, transaction_id: None }
}

impl UnsignedData {
    /// An age, where present, fits in a JavaScript integer.
    pub open spec fn wf(self) -> bool {
        self.age matches Some(a) ==> -MAX_SAFE_INT <= a <= MAX_SAFE_INT
    }

    /// Whether nothing is in it.
    pub fn is_empty(&self) -> (r: bool)
        ensures
            r == (*self == empty_unsigned()),
    {
        self.age.is_none() && self.transaction_id.is_none()
    }

    /// Encodes unsigned data as a JSON object holding the fields present.
    pub fn to_json(&self) -> (r: JsonValue)
        ensures
            unsigned_json(r, *self),
    {
        let mut es: Vec<(String, JsonValue)> = Vec::new();
        match self.age {
            Some(a) => {
                let n = if a < 0 {
                    JsonNumber::NegInt(a)
                } else {
                    JsonNumber::PosInt(a as u64)
                };
                es.push(entry("age", JsonValue::Number(n)));
            },
            None => {},
        }
        match &self.transaction_id {
            Some(t) => {
                es.push(entry("transaction_id", JsonValue::String(t.clone())));
            },
            None => {},
        }
        JsonValue::Object(es)
    }

    /// Reads unsigned data from a JSON object; other fields are ignored.
    pub fn from_json(j: &JsonValue) -> (r: Result<UnsignedData, FieldError>)
        ensures
            r == unsigned_from_json(*j),
    {
        match j {
            JsonValue::Object(_) => {},
            _ => return Err(FieldError { field: Field::Unsigned, problem: Problem::WrongType }),
        }
        let age = match opt_int_field(j, "age", Field::Age) {
            Ok(a) => a,
            Err(e) => return Err(e),
        };
        let transaction_id = match opt_string_field(j, "transaction_id", Field::TransactionId) {
            Ok(t) => t,
            Err(e) => return Err(e),
        };
        Ok(UnsignedData { age, transaction_id })
    }
}

impl Default for UnsignedData {
    fn default() -> (r: UnsignedData)
        ensures
            r == empty_unsigned(),
    {
        UnsignedData { age: None, transaction_id: None }
    }
}

/// The JSON number that encodes an integer.
pub open spec fn int_json(a: i64) -> JsonValue {
    if a < 0 {
        JsonValue::Number(JsonNumber::NegInt(a))
    } else {
        JsonValue::Number(JsonNumber::PosInt(a as u64))
    }
}

/// `j` is the encoding of `u`: `age`, then `transaction_id`, each where present.
pub open spec fn unsigned_json(j: JsonValue, u: UnsignedData) -> bool {
    &&& j matches JsonValue::Object(es)
    &&& es@.len() == (if u.age is Some { 1int } else { 0 }) + (if u.transaction_id is Some {
        1int
    } else {
        0
    })
    &&& u.age matches Some(a) ==> es@[0].0@ == "age"@ && es@[0].1 == int_json(a)
    &&& u.transaction_id matches Some(t) ==> {
        let k = es@.len() - 1;
        es@[k].0@ == "transaction_id"@ && es@[k].1 == JsonValue::String(t)
    }
}

/// Unsigned data read from a JSON object.
pub open spec fn unsigned_from_json(j: JsonValue) -> Result<UnsignedData, FieldError> {
    if !(j is Object) {
        Err(FieldError { field: Field::Unsigned, problem: Problem::WrongType })
    } else {
        match read_opt_int(j, "age"@, Field::Age) {
            Err(e) => Err(e),
            Ok(age) => match read_opt_string(j, "transaction_id"@, Field::TransactionId) {
                Err(e) => Err(e),
                Ok(transaction_id) => Ok(UnsignedData { age, transaction_id }),
            },
        }
    }
}

/// Decoding the encoding of well-formed unsigned data gives it back.
pub proof fn lemma_unsigned_round_trip(j: JsonValue, u: UnsignedData)
    requires
        u.wf(),
        unsigned_json(j, u),
    ensures
        unsigned_from_json(j) == Ok::<_, FieldError>(u),
{
    reveal_strlit("age");
    reveal_strlit("transaction_id");
    let es = j->Object_0@;
    assert("age"@.len() != "transaction_id"@.len());
    match u.age {
        Some(a) => {
            lemma_entry_first(es, "age"@, 0);
        },
        None => {
            lemma_entry_absent(es, "age"@);
        },
    }
    match u.transaction_id {
        Some(t) => {
            lemma_entry_first(es, "transaction_id"@, es.len() - 1);
        },
        None => {
            assert forall|k: int| 0 <= k < es.len() implies (#[trigger] es[k]).0@
                != "transaction_id"@ by {}
            lemma_entry_absent(es, "transaction_id"@);
        },
    }
}

} // verus!
