use vstd::prelude::*;
use vstd::utf8::encode_utf8;

use crate::encoding::{be_bytes, be_value, lemma_be_round_trip, lemma_pow256_widths};
use crate::error::{outcome_of, SendError};
use crate::ident::hyphenated;
use crate::request::{
    chosen_id, collapse_value, expiration_value, header_list, optional_header, priority_value,
};
use crate::types::Notification;

verus! {

/// The value of the first header named `name`, if any.
pub open spec fn header_value(hs: Seq<(Seq<char>, Seq<u8>)>, name: Seq<char>) -> Option<Seq<u8>>
    decreases hs.len(),
{
    if hs.len() == 0 {
        None
    } else if hs[0].0 == name {
        Some(hs[0].1)
    } else {
        header_value(hs.drop_first(), name)
    }
}

proof fn lemma_header_value_concat(
    a: Seq<(Seq<char>, Seq<u8>)>,
    b: Seq<(Seq<char>, Seq<u8>)>,
    name: Seq<char>,
)
    ensures
        header_value(a + b, name) == match header_value(a, name) {
            Some(v) => Some(v),
            None => header_value(b, name),
        },
    decreases a.len(),
{
    if a.len() == 0 {
        assert(a + b =~= b);
    } else {
        assert((a + b)[0] == a[0]);
        assert((a + b).drop_first() =~= a.drop_first() + b);
        lemma_header_value_concat(a.drop_first(), b, name);
    }
}

proof fn lemma_optional_header_value(n: Seq<char>, v: Option<Seq<u8>>, name: Seq<char>)
    ensures
        header_value(optional_header(n, v), name) == if n == name {
            v
        } else {
            None
        },
{
    reveal_with_fuel(header_value, 2);
    if v is Some {
        assert(optional_header(n, v).drop_first() =~= Seq::<(Seq<char>, Seq<u8>)>::empty());
    }
}

/// Each header of a request is found under its own name: `apns-id` and
/// `apns-topic` always, and each optional header exactly when its field is
/// present, with the encoding of that field as its value.
pub proof fn lemma_header_presence(n: Notification, id: u128)
    ensures
        header_value(header_list(n, id), "apns-id"@) == Some(encode_utf8(hyphenated(id))),
        header_value(header_list(n, id), "apns-topic"@) == Some(encode_utf8(n.topic@)),
        header_value(header_list(n, id), "apns-expiration"@) == expiration_value(n.expiration),
        header_value(header_list(n, id), "apns-priority"@) == priority_value(n.priority),
        header_value(header_list(n, id), "apns-collapse-id"@) == collapse_value(n.collapse_id),
{
    reveal_strlit("apns-id");
    reveal_strlit("apns-topic");
    reveal_strlit("apns-expiration");
    reveal_strlit("apns-priority");
    reveal_strlit("apns-collapse-id");
    let id_name = "apns-id"@;
    let topic_name = "apns-topic"@;
    let exp_name = "apns-expiration"@;
    let pri_name = "apns-priority"@;
    let col_name = "apns-collapse-id"@;
    assert(id_name[5] == 'i' && topic_name[5] == 't' && exp_name[5] == 'e' && pri_name[5] == 'p'
        && col_name[5] == 'c');
    let fixed = seq![(id_name, encode_utf8(hyphenated(id))), (topic_name, encode_utf8(n.topic@))];
    let e = optional_header(exp_name, expiration_value(n.expiration));
    let p = optional_header(pri_name, priority_value(n.priority));
    let c = optional_header(col_name, collapse_value(n.collapse_id));
    assert(header_list(n, id) == fixed + e + p + c);
    let names = seq![id_name, topic_name, exp_name, pri_name, col_name];
    assert forall|k: int| 0 <= k < 5 implies {
        let name = #[trigger] names[k];
        header_value(fixed + e + p + c, name) == match header_value(fixed, name) {
            Some(v) => Some(v),
            None => match header_value(e, name) {
                Some(v) => Some(v),
                None => match header_value(p, name) {
                    Some(v) => Some(v),
                    None => header_value(c, name),
                },
            },
        }
    } by {
        let name = names[k];
        lemma_header_value_concat(fixed + e + p, c, name);
        lemma_header_value_concat(fixed + e, p, name);
        lemma_header_value_concat(fixed, e, name);
    }
    assert forall|k: int| 0 <= k < 5 implies {
        let name = #[trigger] names[k];
        &&& header_value(e, name) == if name == exp_name {
            expiration_value(n.expiration)
        } else {
            None
        }
        &&& header_value(p, name) == if name == pri_name {
            priority_value(n.priority)
        } else {
            None
        }
        &&& header_value(c, name) == if name == col_name {
            collapse_value(n.collapse_id)
        } else {
            None
        }
    } by {
        let name = names[k];
        lemma_optional_header_value(exp_name, expiration_value(n.expiration), name);
        lemma_optional_header_value(pri_name, priority_value(n.priority), name);
        lemma_optional_header_value(col_name, collapse_value(n.collapse_id), name);
    }
    reveal_with_fuel(header_value, 3);
    assert(fixed.drop_first()[0] == (topic_name, encode_utf8(n.topic@)));
    assert(fixed.drop_first().drop_first().len() == 0);
    assert(names[0] == id_name && names[1] == topic_name && names[2] == exp_name && names[3]
        == pri_name && names[4] == col_name);
}

/// The fixed-width headers decode to exactly the values they were made from:
/// the expiration from its eight bytes, the priority's code from its four.
pub proof fn lemma_header_round_trip(n: Notification, id: u128)
    ensures
        n.expiration matches Some(x) ==> header_value(header_list(n, id), "apns-expiration"@)
            matches Some(b) && b.len() == 8 && be_value(b) == x,
        n.priority matches Some(q) ==> header_value(header_list(n, id), "apns-priority"@)
            matches Some(b) && b.len() == 4 && be_value(b) == q.code(),
{
    lemma_header_presence(n, id);
    lemma_pow256_widths();
    if let Some(x) = n.expiration {
        lemma_be_round_trip(x as nat, 8);
    }
    if let Some(q) = n.priority {
        lemma_be_round_trip(q.code() as nat, 4);
    }
}

/// A notification that carries its own identifier is sent under it: the
/// `apns-id` header is that identifier's text, and a 200 reply returns
/// exactly that identifier, whatever the body held.
pub proof fn lemma_given_id_is_sent_and_returned(
    n: Notification,
    generated: u128,
    r: Result<u128, SendError>,
    reason: Option<Seq<char>>,
)
    requires
        n.id is Some,
        outcome_of(r, chosen_id(n.id, generated), 200, reason),
    ensures
        chosen_id(n.id, generated) == n.id.unwrap(),
        header_value(header_list(n, chosen_id(n.id, generated)), "apns-id"@) == Some(
            encode_utf8(hyphenated(n.id.unwrap())),
        ),
        r == Ok::<u128, SendError>(n.id.unwrap()),
{
    lemma_header_presence(n, n.id.unwrap());
}

} // verus!
