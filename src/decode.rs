use vstd::prelude::*;
use crate::json::{Json, get_member, member};

verus! {

/// Why a response could not be read.
#[derive(Debug, Clone, Copy, PartialEq, Eq, Structural)]
pub enum DecodeError {
    /// The body is no JSON document.
    NotJson,
    /// The document does not have the expected shape: a required member is
    /// missing or a member has the wrong type.
    Schema,
}

/// A type read from a JSON value. `accepts` says which values can be read,
/// `decodes_to` which value of the type each of them gives.
pub trait FromJson: Sized {
    spec fn accepts(j: Json) -> bool;

    spec fn decodes_to(j: Json, x: Self) -> bool;

    fn from_json(j: &Json) -> (r: Result<Self, DecodeError>)
        ensures
            r is Ok <==> Self::accepts(*j),
            r matches Err(e) ==> e == DecodeError::Schema,
            r matches Ok(x) ==> Self::decodes_to(*j, x),
    ;
}

/// `j` is an array whose items can all be read as `T`.
pub open spec fn list_accepts<T: FromJson>(j: Json) -> bool {
    match j {
        Json::Array(a) => forall|i: int| 0 <= i < a@.len() ==> T::accepts(#[trigger] a@[i]),
        _ => false,
    }
}

/// `v` holds the items of the array `j`, read in order.
pub open spec fn list_decodes<T: FromJson>(j: Json, v: Seq<T>) -> bool {
    match j {
        Json::Array(a) => v.len() == a@.len() && forall|i: int|
            0 <= i < v.len() ==> T::decodes_to(a@[i], #[trigger] v[i]),
        _ => false,
    }
}

/// No two pairs have the same key.
pub open spec fn keys_unique<T>(pairs: Seq<(String, T)>) -> bool {
    forall|a: int, b: int|
        0 <= a < b < pairs.len() ==> (#[trigger] pairs[a]).0@ != (#[trigger] pairs[b]).0@
}

/// Whether no two pairs have the same key.
pub fn has_unique_keys<T>(pairs: &Vec<(String, T)>) -> (r: bool)
    ensures
        r == keys_unique(pairs@),
{
    let mut i: usize = 0;
    while i < pairs.len()
        invariant
            i <= pairs.len(),
            forall|a: int, b: int|
                0 <= a < b < pairs@.len() && a < i ==> (#[trigger] pairs@[a]).0@ != (
                #[trigger] pairs@[b]).0@,
        decreases pairs.len() - i,
    {
        let mut j: usize = i + 1;
        while j < pairs.len()
            invariant
                i < pairs.len(),
                i + 1 <= j <= pairs.len(),
                forall|a: int, b: int|
                    0 <= a < b < pairs@.len() && a < i ==> (#[trigger] pairs@[a]).0@ != (
                    #[trigger] pairs@[b]).0@,
                forall|b: int| i < b < j ==> pairs@[i as int].0@ != (#[trigger] pairs@[b]).0@,
            decreases pairs.len() - j,
        {
            if pairs[i].0 == pairs[j].0 {
                return false;
            }
            j += 1;
        }
        i += 1;
    }
    true
}

/// `j` is an object without a repeated key whose member values can all be
/// read as `T`.
pub open spec fn pairs_accepts<T: FromJson>(j: Json) -> bool {
    match j {
        Json::Object(ms) => keys_unique(ms@) && forall|i: int|
            0 <= i < ms@.len() ==> T::accepts(#[trigger] ms@[i].1),
        _ => false,
    }
}

/// `v` holds the members of the object `j` in order, each key kept and each
/// value read; no key comes twice.
pub open spec fn pairs_decodes<T: FromJson>(j: Json, v: Seq<(String, T)>) -> bool {
    match j {
        Json::Object(ms) => v.len() == ms@.len() && keys_unique(v) && forall|i: int|
            0 <= i < v.len() ==> (#[trigger] v[i]).0@ == ms@[i].0@ && T::decodes_to(
                ms@[i].1,
                v[i].1,
            ),
        _ => false,
    }
}

/// The required member `key` is there and can be read.
pub open spec fn field_accepts<T: FromJson>(j: Json, key: Seq<char>) -> bool {
    match member(j, key) {
        Some(x) => T::accepts(x),
        None => false,
    }
}

/// `v` is what the required member `key` reads as.
pub open spec fn field_decodes<T: FromJson>(j: Json, key: Seq<char>, v: T) -> bool {
    match member(j, key) {
        Some(x) => T::decodes_to(x, v),
        None => false,
    }
}

/// The required map member `key` is there, an object of readable values.
pub open spec fn field_pairs_accepts<T: FromJson>(j: Json, key: Seq<char>) -> bool {
    match member(j, key) {
        Some(x) => pairs_accepts::<T>(x),
        None => false,
    }
}

/// `v` holds the members of the required map member `key`.
pub open spec fn field_pairs_decodes<T: FromJson>(
    j: Json,
    key: Seq<char>,
    v: Seq<(String, T)>,
) -> bool {
    match member(j, key) {
        Some(x) => pairs_decodes::<T>(x, v),
        None => false,
    }
}

/// The optional member `key` is missing, null, or can be read.
pub open spec fn opt_accepts<T: FromJson>(j: Json, key: Seq<char>) -> bool {
    match member(j, key) {
        Some(Json::Null) => true,
        Some(x) => T::accepts(x),
        None => true,
    }
}

/// `v` is nothing where the optional member `key` is missing or null, and
/// what it reads as otherwise.
pub open spec fn opt_decodes<T: FromJson>(j: Json, key: Seq<char>, v: Option<T>) -> bool {
    match member(j, key) {
        Some(Json::Null) => v is None,
        Some(x) => v matches Some(y) && T::decodes_to(x, y),
        None => v is None,
    }
}

/// The list member `key` is missing or an array of readable items.
pub open spec fn default_list_accepts<T: FromJson>(j: Json, key: Seq<char>) -> bool {
    match member(j, key) {
        Some(x) => list_accepts::<T>(x),
        None => true,
    }
}

/// `v` is empty where the list member `key` is missing, and its items otherwise.
pub open spec fn default_list_decodes<T: FromJson>(j: Json, key: Seq<char>, v: Seq<T>) -> bool {
    match member(j, key) {
        Some(x) => list_decodes::<T>(x, v),
        None => v.len() == 0,
    }
}

/// The map member `key` is missing or an object of readable values.
pub open spec fn default_pairs_accepts<T: FromJson>(j: Json, key: Seq<char>) -> bool {
    match member(j, key) {
        Some(x) => pairs_accepts::<T>(x),
        None => true,
    }
}

/// `v` is empty where the map member `key` is missing, and its members otherwise.
pub open spec fn default_pairs_decodes<T: FromJson>(
    j: Json,
    key: Seq<char>,
    v: Seq<(String, T)>,
) -> bool {
    match member(j, key) {
        Some(x) => pairs_decodes::<T>(x, v),
        None => v.len() == 0,
    }
}

impl FromJson for String {
    open spec fn accepts(j: Json) -> bool {
        j is Str
    }

    open spec fn decodes_to(j: Json, x: String) -> bool {
        j matches Json::Str(s) && x@ == s@
    }

    fn from_json(j: &Json) -> (r: Result<String, DecodeError>) {
        match j {
            Json::Str(s) => Ok(s.clone()),
            _ => Err(DecodeError::Schema),
        }
    }
}

impl FromJson for bool {
    open spec fn accepts(j: Json) -> bool {
        j is Bool
    }

    open spec fn decodes_to(j: Json, x: bool) -> bool {
        j == Json::Bool(x)
    }

    fn from_json(j: &Json) -> (r: Result<bool, DecodeError>) {
        match j {
            Json::Bool(b) => Ok(*b),
            _ => Err(DecodeError::Schema),
        }
    }
}

impl FromJson for u32 {
    open spec fn accepts(j: Json) -> bool {
        j matches Json::Number(Some(n)) && n <= u32::MAX
    }

    open spec fn decodes_to(j: Json, x: u32) -> bool {
        j == Json::Number(Some(x as u64))
    }

    fn from_json(j: &Json) -> (r: Result<u32, DecodeError>) {
        match j {
            Json::Number(Some(n)) => {
                if *n <= u32::MAX as u64 {
                    Ok(*n as u32)
                } else {
                    Err(DecodeError::Schema)
                }
            },
            _ => Err(DecodeError::Schema),
        }
    }
}

impl FromJson for Option<u32> {
    open spec fn accepts(j: Json) -> bool {
        j is Null || u32::accepts(j)
    }

    open spec fn decodes_to(j: Json, x: Option<u32>) -> bool {
        match x {
            None => j is Null,
            Some(n) => u32::decodes_to(j, n),
        }
    }

    fn from_json(j: &Json) -> (r: Result<Option<u32>, DecodeError>) {
        match j {
            Json::Null => Ok(None),
            _ => match u32::from_json(j) {
                Ok(n) => Ok(Some(n)),
                Err(e) => Err(e),
            },
        }
    }
}

impl<T: FromJson> FromJson for Vec<T> {
    open spec fn accepts(j: Json) -> bool {
        list_accepts::<T>(j)
    }

    open spec fn decodes_to(j: Json, x: Vec<T>) -> bool {
        list_decodes::<T>(j, x@)
    }

    fn from_json(j: &Json) -> (r: Result<Vec<T>, DecodeError>) {
        decode_list::<T>(j)
    }
}

/// Reads the items of an array, in order.
pub fn decode_list<T: FromJson>(j: &Json) -> (r: Result<Vec<T>, DecodeError>)
    ensures
        r is Ok <==> list_accepts::<T>(*j),
        r matches Err(e) ==> e == DecodeError::Schema,
        r matches Ok(v) ==> list_decodes::<T>(*j, v@),
{
    match j {
        Json::Array(a) => {
            let mut out: Vec<T> = Vec::new();
            let mut i: usize = 0;
            while i < a.len()
                invariant
                    i <= a.len(),
                    *j == Json::Array(*a),
                    out@.len() == i,
                    forall|k: int|
                        0 <= k < i ==> T::accepts(#[trigger] a@[k]) && T::decodes_to(
                            a@[k],
                            out@[k],
                        ),
                decreases a.len() - i,
            {
                match T::from_json(&a[i]) {
                    Ok(x) => out.push(x),
                    Err(e) => {
                        assert(j->Array_0 == *a);
                        assert(!T::accepts(j->Array_0@[i as int]));
                        return Err(e);
                    },
                }
                i += 1;
            }
            Ok(out)
        },
        _ => Err(DecodeError::Schema),
    }
}

/// Reads the members of an object, in order, keeping each key; fails where a
/// key comes twice.
pub fn decode_pairs<T: FromJson>(j: &Json) -> (r: Result<Vec<(String, T)>, DecodeError>)
    ensures
        r is Ok <==> pairs_accepts::<T>(*j),
        r matches Err(e) ==> e == DecodeError::Schema,
        r matches Ok(v) ==> pairs_decodes::<T>(*j, v@),
{
    match j {
        Json::Object(ms) => {
            if !has_unique_keys(ms) {
                return Err(DecodeError::Schema);
            }
            let mut out: Vec<(String, T)> = Vec::new();
            let mut i: usize = 0;
            while i < ms.len()
                invariant
                    i <= ms.len(),
                    *j == Json::Object(*ms),
                    keys_unique(ms@),
                    out@.len() == i,
                    forall|k: int|
                        #![trigger ms@[k]]
                        #![trigger out@[k]]
                        0 <= k < i ==> T::accepts(ms@[k].1) && out@[k].0@ == ms@[k].0@
                            && T::decodes_to(ms@[k].1, out@[k].1),
                decreases ms.len() - i,
            {
                match T::from_json(&ms[i].1) {
                    Ok(x) => out.push((ms[i].0.clone(), x)),
                    Err(e) => {
                        assert(j->Object_0 == *ms);
                        assert(!T::accepts(j->Object_0@[i as int].1));
                        return Err(e);
                    },
                }
                i += 1;
            }
            assert(keys_unique(out@)) by {
                assert forall|a: int, b: int| 0 <= a < b < out@.len() implies (#[trigger] out@[
                    a]).0@ != (#[trigger] out@[b]).0@ by {
                    assert(out@[a].0@ == ms@[a].0@);
                    assert(out@[b].0@ == ms@[b].0@);
                }
            }
            Ok(out)
        },
        _ => Err(DecodeError::Schema),
    }
}

/// Reads the required member `key`.
pub fn decode_field<T: FromJson>(j: &Json, key: &str) -> (r: Result<T, DecodeError>)
    ensures
        r is Ok <==> field_accepts::<T>(*j, key@),
        r matches Err(e) ==> e == DecodeError::Schema,
        r matches Ok(x) ==> field_decodes::<T>(*j, key@, x),
{
    match get_member(j, key) {
        Some(x) => T::from_json(x),
        None => Err(DecodeError::Schema),
    }
}

/// Reads the required map member `key`.
pub fn decode_field_pairs<T: FromJson>(j: &Json, key: &str) -> (r: Result<
    Vec<(String, T)>,
    DecodeError,
>)
    ensures
        r is Ok <==> field_pairs_accepts::<T>(*j, key@),
        r matches Err(e) ==> e == DecodeError::Schema,
        r matches Ok(v) ==> field_pairs_decodes::<T>(*j, key@, v@),
{
    match get_member(j, key) {
        Some(x) => decode_pairs::<T>(x),
        None => Err(DecodeError::Schema),
    }
}

/// Reads the optional member `key`; nothing where it is missing or null.
pub fn decode_opt<T: FromJson>(j: &Json, key: &str) -> (r: Result<Option<T>, DecodeError>)
    ensures
        r is Ok <==> opt_accepts::<T>(*j, key@),
        r matches Err(e) ==> e == DecodeError::Schema,
        r matches Ok(x) ==> opt_decodes::<T>(*j, key@, x),
{
    match get_member(j, key) {
        Some(Json::Null) => Ok(None),
        Some(x) => match T::from_json(x) {
            Ok(y) => Ok(Some(y)),
            Err(e) => Err(e),
        },
        None => Ok(None),
    }
}

/// Reads the list member `key`; empty where it is missing.
pub fn decode_default_list<T: FromJson>(j: &Json, key: &str) -> (r: Result<Vec<T>, DecodeError>)
    ensures
        r is Ok <==> default_list_accepts::<T>(*j, key@),
        r matches Err(e) ==> e == DecodeError::Schema,
        r matches Ok(v) ==> default_list_decodes::<T>(*j, key@, v@),
{
    match get_member(j, key) {
        Some(x) => decode_list::<T>(x),
        None => Ok(Vec::new()),
    }
}

/// Reads the map member `key`; empty where it is missing.
pub fn decode_default_pairs<T: FromJson>(j: &Json, key: &str) -> (r: Result<
    Vec<(String, T)>,
    DecodeError,
>)
    ensures
        r is Ok <==> default_pairs_accepts::<T>(*j, key@),
        r matches Err(e) ==> e == DecodeError::Schema,
        r matches Ok(v) ==> default_pairs_decodes::<T>(*j, key@, v@),
{
    match get_member(j, key) {
        Some(x) => decode_pairs::<T>(x),
        None => Ok(Vec::new()),
    }
}

} // verus!
