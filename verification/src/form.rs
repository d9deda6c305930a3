//! Decoding a form body into pairs, and finding the fields of a submission
//! among them.

use vstd::prelude::*;
use crate::error::{Field, ValidationError};

verus! {

/// The pairs of a form as contracts see them: key and value, in body order.
pub open spec fn pairs_view(pairs: Seq<(String, String)>) -> Seq<(Seq<char>, Seq<char>)> {
    Seq::new(pairs.len(), |i: int| (pairs[i].0@, pairs[i].1@))
}

/// The error of `serde_urlencoded`'s deserializer. Nothing is read from it.
#[verifier::external_type_specification]
#[verifier::external_body]
pub struct ExDecodeError(serde_urlencoded::de::Error);

/// What `serde_urlencoded::from_bytes` makes of a body when asked for a list
/// of string pairs: the percent-decoded keys and values in body order, or
/// `None` where it reports an error. Nothing more is assumed of it.
pub uninterp spec fn form_pairs(body: Seq<u8>) -> Option<Seq<(Seq<char>, Seq<char>)>>;

/// Calls `serde_urlencoded::from_bytes::<Vec<(String, String)>>`, the decoder
/// of `application/x-www-form-urlencoded` bodies. Trusted: that the outcome
/// depends on the bytes alone, which is what gives it the name `form_pairs`.
#[verifier::external_body]
pub(crate) fn decode_form(body: &[u8]) -> (r: Result<
    Vec<(String, String)>,
    serde_urlencoded::de::Error,
>)
    ensures
        match r {
            Ok(pairs) => form_pairs(body@) == Some(pairs_view(pairs@)),
            Err(_) => form_pairs(body@) is None,
        },
{
    serde_urlencoded::from_bytes::<Vec<(String, String)>>(body)
}

/// The field that a key names, if it names one. Any other key is ignored.
pub open spec fn named_field(key: Seq<char>) -> Option<Field> {
    if key == Field::Email.key() {
        Some(Field::Email)
    } else if key == Field::Name.key() {
        Some(Field::Name)
    } else {
        None
    }
}

/// Pair `i` names a field that some earlier pair named too.
pub open spec fn repeats(pairs: Seq<(Seq<char>, Seq<char>)>, i: int) -> bool {
    &&& named_field(pairs[i].0) is Some
    &&& exists|j: int| 0 <= j < i && #[trigger] pairs[j].0 == pairs[i].0
}

/// Some pair of the form repeats a field.
pub open spec fn has_repeat(pairs: Seq<(Seq<char>, Seq<char>)>) -> bool {
    exists|i: int| 0 <= i < pairs.len() && repeats(pairs, i)
}

/// The position of the first pair that repeats a field.
pub open spec fn first_repeat(pairs: Seq<(Seq<char>, Seq<char>)>) -> int {
    choose|i: int|
        0 <= i < pairs.len() && repeats(pairs, i) && forall|k: int|
            0 <= k < i ==> !repeats(pairs, k)
}

/// Some pair names the field.
pub open spec fn occurs(pairs: Seq<(Seq<char>, Seq<char>)>, field: Field) -> bool {
    exists|i: int| 0 <= i < pairs.len() && #[trigger] pairs[i].0 == field.key()
}

/// The value that the form gives the field: that of a pair that names it.
/// Where no field is repeated there is one such pair at most.
pub open spec fn value_of(pairs: Seq<(Seq<char>, Seq<char>)>, field: Field) -> Seq<char> {
    pairs[choose|i: int| 0 <= i < pairs.len() && #[trigger] pairs[i].0 == field.key()].1
}

/// What a form yields: the values of `email` and `name`, in that order, or the
/// reason why it yields none. A repeated field is reported first, at the first
/// pair that repeats one; then a missing field, `email` before `name`.
pub open spec fn selected(pairs: Seq<(Seq<char>, Seq<char>)>) -> Result<
    (Seq<char>, Seq<char>),
    ValidationError,
> {
    if has_repeat(pairs) {
        Err(ValidationError::Duplicate(named_field(pairs[first_repeat(pairs)].0)->0))
    } else if !occurs(pairs, Field::Email) {
        Err(ValidationError::Missing(Field::Email))
    } else if !occurs(pairs, Field::Name) {
        Err(ValidationError::Missing(Field::Name))
    } else {
        Ok((value_of(pairs, Field::Email), value_of(pairs, Field::Name)))
    }
}

/// Where no pair repeats a field, any two pairs that name the same field are
/// one pair.
proof fn lemma_one_pair_per_field(pairs: Seq<(Seq<char>, Seq<char>)>, a: int, b: int)
    requires
        !has_repeat(pairs),
        0 <= a < pairs.len(),
        0 <= b < pairs.len(),
        pairs[a].0 == pairs[b].0,
        named_field(pairs[a].0) is Some,
    ensures
        a == b,
{
    if a < b {
        assert(repeats(pairs, b));
    } else if b < a {
        assert(repeats(pairs, a));
    }
}

/// Where pair `at` is the only one that names the field, the form gives the
/// field that pair's value.
proof fn lemma_value_at(pairs: Seq<(Seq<char>, Seq<char>)>, field: Field, at: int)
    requires
        !has_repeat(pairs),
        0 <= at < pairs.len(),
        pairs[at].0 == field.key(),
    ensures
        occurs(pairs, field),
        value_of(pairs, field) == pairs[at].1,
{
    let c = choose|i: int| 0 <= i < pairs.len() && #[trigger] pairs[i].0 == field.key();
    lemma_one_pair_per_field(pairs, at, c);
}

/// The two keys are different strings, and each names its own field.
proof fn lemma_keys_differ()
    ensures
        Field::Email.key() != Field::Name.key(),
        named_field(Field::Email.key()) == Some(Field::Email),
        named_field(Field::Name.key()) == Some(Field::Name),
{
    reveal_strlit("email");
    reveal_strlit("name");
    assert("email"@.len() != "name"@.len());
}

/// Where pair `i` repeats the field of pair `j` and no pair before it repeats
/// one, pair `i` is the first repeat.
proof fn lemma_first_repeat(pairs: Seq<(Seq<char>, Seq<char>)>, i: int, j: int)
    requires
        0 <= j < i < pairs.len(),
        pairs[j].0 == pairs[i].0,
        named_field(pairs[i].0) is Some,
        forall|k: int| 0 <= k < i ==> !repeats(pairs, k),
    ensures
        has_repeat(pairs),
        first_repeat(pairs) == i,
{
    assert(repeats(pairs, i));
}

/// Picks the values of `email` and `name` out of a decoded form.
///
/// Pairs are read in body order. A pair with any other key is passed over. The
/// first pair that names a field for the second time ends the reading with
/// `Duplicate`; a form read to its end lacks a field with `Missing`, `email`
/// before `name`. The values come back as the form holds them, character for
/// character.
pub fn select_fields(pairs: &Vec<(String, String)>) -> (r: Result<
    (String, String),
    ValidationError,
>)
    ensures
        match selected(pairs_view(pairs@)) {
            Ok((email, name)) => r matches Ok((e, n)) && e@ == email && n@ == name,
            Err(reason) => r matches Err(e) && e == reason,
        },
{
    let email_key = String::from_str("email");
    let name_key = String::from_str("name");
    let ghost form = pairs_view(pairs@);
    let mut email: Option<String> = None;
    let mut name: Option<String> = None;
    let ghost mut email_at: int = 0;
    let ghost mut name_at: int = 0;
    let mut i: usize = 0;
    proof {
        lemma_keys_differ();
    }
    while i < pairs.len()
        invariant
            0 <= i <= pairs.len(),
            form == pairs_view(pairs@),
            email_key@ == Field::Email.key(),
            name_key@ == Field::Name.key(),
            Field::Email.key() != Field::Name.key(),
            forall|k: int| 0 <= k < i ==> !repeats(form, k),
            match email {
                Some(v) => 0 <= email_at < i && form[email_at].0 == Field::Email.key()
                    && form[email_at].1 == v@,
                None => forall|k: int| 0 <= k < i ==> (#[trigger] form[k]).0 != Field::Email.key(),
            },
            match name {
                Some(v) => 0 <= name_at < i && form[name_at].0 == Field::Name.key()
                    && form[name_at].1 == v@,
                None => forall|k: int| 0 <= k < i ==> (#[trigger] form[k]).0 != Field::Name.key(),
            },
        decreases pairs.len() - i,
    {
        let pair = &pairs[i];
        if pair.0 == email_key {
            if email.is_some() {
                proof {
                    lemma_first_repeat(form, i as int, email_at);
                }
                return Err(ValidationError::Duplicate(Field::Email));
            }
            email = Some(pair.1.clone());
            proof {
                email_at = i as int;
            }
        } else if pair.0 == name_key {
            if name.is_some() {
                proof {
                    lemma_first_repeat(form, i as int, name_at);
                }
                return Err(ValidationError::Duplicate(Field::Name));
            }
            name = Some(pair.1.clone());
            proof {
                name_at = i as int;
            }
        }
        i += 1;
    }
    match email {
        None => Err(ValidationError::Missing(Field::Email)),
        Some(e) => {
            proof {
                lemma_value_at(form, Field::Email, email_at);
            }
            match name {
                None => Err(ValidationError::Missing(Field::Name)),
                Some(n) => {
                    proof {
                        lemma_value_at(form, Field::Name, name_at);
                    }
                    Ok((e, n))
                },
            }
        },
    }
}

} // verus!
