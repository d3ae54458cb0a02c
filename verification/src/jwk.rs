//! JSON Web Keys and key sets, and the choice of the key that verifies a
//! signature.

use crate::json::{
    has_real, lemma_array_view, lemma_object_view, Json, JsonError, JsonFault, JsonValue,
};
use crate::reader::{
    agrees, as_list, find, members_of, named, optional, optional_text, plain_entries,
    plain_members, read_text, require_text, required, required_text, Entry, Member,
};
use crate::text::{copy_optional, optional_str};
use crate::writer::{
    flatten, laid_out, lemma_flatten_untagged, lemma_flatten_writable, lemma_named_flatten,
    lemma_plain_wire, lemma_read_written_text, lemma_writable_object, lemma_written_next,
    uniform, wire_members, writable, write_text, written_text,
};
use vstd::prelude::*;
use vstd::string::StringExecFns;

verus! {

/// A JSON Web Key: what says which signatures it is for, and the key
/// material as the texts that stand in the key's document.
#[derive(Debug, PartialEq, Eq)]
pub struct JsonWebKey {
    kty: String,
    key_use: Option<String>,
    alg: Option<String>,
    kid: Option<String>,
    n: Option<String>,
    e: Option<String>,
    crv: Option<String>,
    x: Option<String>,
    y: Option<String>,
    k: Option<String>,
}

/// What a `JsonWebKey` holds.
pub struct JsonWebKeyView {
    pub kty: Seq<char>,
    pub key_use: Option<Seq<char>>,
    pub alg: Option<Seq<char>>,
    pub kid: Option<Seq<char>>,
    pub n: Option<Seq<char>>,
    pub e: Option<Seq<char>>,
    pub crv: Option<Seq<char>>,
    pub x: Option<Seq<char>>,
    pub y: Option<Seq<char>>,
    pub k: Option<Seq<char>>,
}

impl View for JsonWebKey {
    type V = JsonWebKeyView;

    closed spec fn view(&self) -> JsonWebKeyView {
        JsonWebKeyView {
            kty: self.kty.deep_view(),
            key_use: self.key_use.deep_view(),
            alg: self.alg.deep_view(),
            kid: self.kid.deep_view(),
            n: self.n.deep_view(),
            e: self.e.deep_view(),
            crv: self.crv.deep_view(),
            x: self.x.deep_view(),
            y: self.y.deep_view(),
            k: self.k.deep_view(),
        }
    }
}

impl DeepView for JsonWebKey {
    type V = JsonWebKeyView;

    open spec fn deep_view(&self) -> JsonWebKeyView {
        self@
    }
}

impl Clone for JsonWebKey {
    fn clone(&self) -> (copy: JsonWebKey)
        ensures
            copy@ == self@,
    {
        JsonWebKey {
            kty: self.kty.clone(),
            key_use: copy_optional(&self.key_use),
            alg: copy_optional(&self.alg),
            kid: copy_optional(&self.kid),
            n: copy_optional(&self.n),
            e: copy_optional(&self.e),
            crv: copy_optional(&self.crv),
            x: copy_optional(&self.x),
            y: copy_optional(&self.y),
            k: copy_optional(&self.k),
        }
    }
}

/// The names of the members of a key, in the order in which they are
/// written.
pub open spec fn jwk_names() -> Seq<Seq<char>> {
    seq![
        "kty"@,
        "use"@,
        "alg"@,
        "kid"@,
        "n"@,
        "e"@,
        "crv"@,
        "x"@,
        "y"@,
        "k"@,
    ]
}

/// The members that stand for each part of a key.
pub open spec fn jwk_pieces(key: JsonWebKeyView) -> Seq<Seq<Entry>> {
    seq![
        written_text("kty"@, Some(key.kty)),
        written_text("use"@, key.key_use),
        written_text("alg"@, key.alg),
        written_text("kid"@, key.kid),
        written_text("n"@, key.n),
        written_text("e"@, key.e),
        written_text("crv"@, key.crv),
        written_text("x"@, key.x),
        written_text("y"@, key.y),
        written_text("k"@, key.k),
    ]
}

/// The document that stands for a key.
pub open spec fn jwk_json(key: JsonWebKeyView) -> Json {
    Json::Object(wire_members(flatten(jwk_pieces(key))))
}

/// The key that the members of a document stand for. Members that the key
/// does not know are passed over.
pub open spec fn jwk_of(entries: Seq<Entry>) -> Result<JsonWebKeyView, JsonFault> {
    let kty = required_text(entries, "kty"@);
    let key_use = optional_text(entries, "use"@);
    let alg = optional_text(entries, "alg"@);
    let kid = optional_text(entries, "kid"@);
    let n = optional_text(entries, "n"@);
    let e = optional_text(entries, "e"@);
    let crv = optional_text(entries, "crv"@);
    let x = optional_text(entries, "x"@);
    let y = optional_text(entries, "y"@);
    let k = optional_text(entries, "k"@);
    if kty is Err {
        Err(kty->Err_0)
    } else if key_use is Err {
        Err(key_use->Err_0)
    } else if alg is Err {
        Err(alg->Err_0)
    } else if kid is Err {
        Err(kid->Err_0)
    } else if n is Err {
        Err(n->Err_0)
    } else if e is Err {
        Err(e->Err_0)
    } else if crv is Err {
        Err(crv->Err_0)
    } else if x is Err {
        Err(x->Err_0)
    } else if y is Err {
        Err(y->Err_0)
    } else if k is Err {
        Err(k->Err_0)
    } else {
        Ok(
            JsonWebKeyView {
                kty: kty->Ok_0,
                key_use: key_use->Ok_0,
                alg: alg->Ok_0,
                kid: kid->Ok_0,
                n: n->Ok_0,
                e: e->Ok_0,
                crv: crv->Ok_0,
                x: x->Ok_0,
                y: y->Ok_0,
                k: k->Ok_0,
            },
        )
    }
}

/// The key that a document stands for.
pub open spec fn decode_jwk(doc: Json) -> Result<JsonWebKeyView, JsonFault> {
    match members_of(doc) {
        Ok(members) => jwk_of(plain_entries(members)),
        Err(fault) => Err(fault),
    }
}

impl JsonWebKey {
    /// A key of a type, with nothing else said of it.
    pub fn new(kty: String) -> (key: JsonWebKey)
        ensures
            key@ == (JsonWebKeyView {
                kty: kty@,
                key_use: None,
                alg: None,
                kid: None,
                n: None,
                e: None,
                crv: None,
                x: None,
                y: None,
                k: None,
            }),
    {
        JsonWebKey {
            kty,
            key_use: None,
            alg: None,
            kid: None,
            n: None,
            e: None,
            crv: None,
            x: None,
            y: None,
            k: None,
        }
    }

    /// Reads a key from its document.
    pub fn from_json(doc: &JsonValue) -> (r: Result<JsonWebKey, JsonError>)
        ensures
            agrees(r, decode_jwk(doc@)),
    {
        let entries = match plain_members(doc) {
            Ok(entries) => entries,
            Err(error) => {
                return Err(error);
            },
        };
        let kty = match require_text(&entries, "kty") {
            Ok(value) => value,
            Err(error) => {
                return Err(error);
            },
        };
        let key_use = match read_text(&entries, "use") {
            Ok(value) => value,
            Err(error) => {
                return Err(error);
            },
        };
        let alg = match read_text(&entries, "alg") {
            Ok(value) => value,
            Err(error) => {
                return Err(error);
            },
        };
        let kid = match read_text(&entries, "kid") {
            Ok(value) => value,
            Err(error) => {
                return Err(error);
            },
        };
        let n = match read_text(&entries, "n") {
            Ok(value) => value,
            Err(error) => {
                return Err(error);
            },
        };
        let e = match read_text(&entries, "e") {
            Ok(value) => value,
            Err(error) => {
                return Err(error);
            },
        };
        let crv = match read_text(&entries, "crv") {
            Ok(value) => value,
            Err(error) => {
                return Err(error);
            },
        };
        let x = match read_text(&entries, "x") {
            Ok(value) => value,
            Err(error) => {
                return Err(error);
            },
        };
        let y = match read_text(&entries, "y") {
            Ok(value) => value,
            Err(error) => {
                return Err(error);
            },
        };
        let k = match read_text(&entries, "k") {
            Ok(value) => value,
            Err(error) => {
                return Err(error);
            },
        };
        Ok(JsonWebKey { kty, key_use, alg, kid, n, e, crv, x, y, k })
    }

    /// Writes the key as its document, from which it can be read again.
    pub fn to_json(&self) -> (doc: JsonValue)
        ensures
            doc@ == jwk_json(self@),
            decode_jwk(doc@) == Ok::<JsonWebKeyView, JsonFault>(self@),
    {
        let ghost pieces = jwk_pieces(self@);
        let mut out: Vec<(String, JsonValue)> = Vec::new();
        proof {
            assert(out.deep_view() =~= wire_members(flatten(pieces.take(0))));
        }
        let ghost before = out.deep_view();
        write_text(&mut out, "kty", Some(self.kty.as_str()));
        proof {
            lemma_written_next(pieces, 0, before, out.deep_view());
        }
        let ghost before = out.deep_view();
        write_text(&mut out, "use", optional_str(&self.key_use));
        proof {
            lemma_written_next(pieces, 1, before, out.deep_view());
        }
        let ghost before = out.deep_view();
        write_text(&mut out, "alg", optional_str(&self.alg));
        proof {
            lemma_written_next(pieces, 2, before, out.deep_view());
        }
        let ghost before = out.deep_view();
        write_text(&mut out, "kid", optional_str(&self.kid));
        proof {
            lemma_written_next(pieces, 3, before, out.deep_view());
        }
        let ghost before = out.deep_view();
        write_text(&mut out, "n", optional_str(&self.n));
        proof {
            lemma_written_next(pieces, 4, before, out.deep_view());
        }
        let ghost before = out.deep_view();
        write_text(&mut out, "e", optional_str(&self.e));
        proof {
            lemma_written_next(pieces, 5, before, out.deep_view());
        }
        let ghost before = out.deep_view();
        write_text(&mut out, "crv", optional_str(&self.crv));
        proof {
            lemma_written_next(pieces, 6, before, out.deep_view());
        }
        let ghost before = out.deep_view();
        write_text(&mut out, "x", optional_str(&self.x));
        proof {
            lemma_written_next(pieces, 7, before, out.deep_view());
        }
        let ghost before = out.deep_view();
        write_text(&mut out, "y", optional_str(&self.y));
        proof {
            lemma_written_next(pieces, 8, before, out.deep_view());
        }
        let ghost before = out.deep_view();
        write_text(&mut out, "k", optional_str(&self.k));
        proof {
            lemma_written_next(pieces, 9, before, out.deep_view());
        }
        proof {
            assert(pieces.take(10) =~= pieces);
        }
        let doc = JsonValue::Object(out);
        proof {
            lemma_object_view(doc);
            lemma_jwk_round_trip(self@);
        }
        doc
    }

    /// The key type, such as `RSA`, `EC` or `oct`.
    pub fn kty(&self) -> (value: &str)
        ensures
            value@ == self@.kty,
    {
        self.kty.as_str()
    }

    /// What the key is for: `sig` or `enc`.
    pub fn key_use(&self) -> (value: Option<&str>)
        ensures
            value.deep_view() == self@.key_use,
    {
        optional_str(&self.key_use)
    }

    /// Gives the key another value for its member `use`.
    pub fn set_key_use(&mut self, value: Option<String>)
        ensures
            final(self)@ == (JsonWebKeyView { key_use: value.deep_view(), ..old(self)@ }),
    {
        self.key_use = value;
    }

    /// The algorithm the key is meant for.
    pub fn alg(&self) -> (value: Option<&str>)
        ensures
            value.deep_view() == self@.alg,
    {
        optional_str(&self.alg)
    }

    /// Gives the key another value for its member `alg`.
    pub fn set_alg(&mut self, value: Option<String>)
        ensures
            final(self)@ == (JsonWebKeyView { alg: value.deep_view(), ..old(self)@ }),
    {
        self.alg = value;
    }

    /// The key's identifier.
    pub fn kid(&self) -> (value: Option<&str>)
        ensures
            value.deep_view() == self@.kid,
    {
        optional_str(&self.kid)
    }

    /// Gives the key another value for its member `kid`.
    pub fn set_kid(&mut self, value: Option<String>)
        ensures
            final(self)@ == (JsonWebKeyView { kid: value.deep_view(), ..old(self)@ }),
    {
        self.kid = value;
    }

    /// The modulus of an RSA key, in base64url.
    pub fn n(&self) -> (value: Option<&str>)
        ensures
            value.deep_view() == self@.n,
    {
        optional_str(&self.n)
    }

    /// Gives the key another value for its member `n`.
    pub fn set_n(&mut self, value: Option<String>)
        ensures
            final(self)@ == (JsonWebKeyView { n: value.deep_view(), ..old(self)@ }),
    {
        self.n = value;
    }

    /// The exponent of an RSA key, in base64url.
    pub fn e(&self) -> (value: Option<&str>)
        ensures
            value.deep_view() == self@.e,
    {
        optional_str(&self.e)
    }

    /// Gives the key another value for its member `e`.
    pub fn set_e(&mut self, value: Option<String>)
        ensures
            final(self)@ == (JsonWebKeyView { e: value.deep_view(), ..old(self)@ }),
    {
        self.e = value;
    }

    /// The curve of an elliptic-curve key.
    pub fn crv(&self) -> (value: Option<&str>)
        ensures
            value.deep_view() == self@.crv,
    {
        optional_str(&self.crv)
    }

    /// Gives the key another value for its member `crv`.
    pub fn set_crv(&mut self, value: Option<String>)
        ensures
            final(self)@ == (JsonWebKeyView { crv: value.deep_view(), ..old(self)@ }),
    {
        self.crv = value;
    }

    /// The x coordinate of an elliptic-curve key, in base64url.
    pub fn x(&self) -> (value: Option<&str>)
        ensures
            value.deep_view() == self@.x,
    {
        optional_str(&self.x)
    }

    /// Gives the key another value for its member `x`.
    pub fn set_x(&mut self, value: Option<String>)
        ensures
            final(self)@ == (JsonWebKeyView { x: value.deep_view(), ..old(self)@ }),
    {
        self.x = value;
    }

    /// The y coordinate of an elliptic-curve key, in base64url.
    pub fn y(&self) -> (value: Option<&str>)
        ensures
            value.deep_view() == self@.y,
    {
        optional_str(&self.y)
    }

    /// Gives the key another value for its member `y`.
    pub fn set_y(&mut self, value: Option<String>)
        ensures
            final(self)@ == (JsonWebKeyView { y: value.deep_view(), ..old(self)@ }),
    {
        self.y = value;
    }

    /// The secret of a symmetric key, in base64url.
    pub fn k(&self) -> (value: Option<&str>)
        ensures
            value.deep_view() == self@.k,
    {
        optional_str(&self.k)
    }

    /// Gives the key another value for its member `k`.
    pub fn set_k(&mut self, value: Option<String>)
        ensures
            final(self)@ == (JsonWebKeyView { k: value.deep_view(), ..old(self)@ }),
    {
        self.k = value;
    }

}

/// The members of a key are laid out soundly: each under its own name.
pub proof fn lemma_jwk_layout(key: JsonWebKeyView)
    ensures
        laid_out(jwk_names(), jwk_pieces(key)),
        forall|i: int, k: int|
            0 <= i < jwk_pieces(key).len() && 0 <= k < jwk_pieces(key)[i].len() ==> (
            #[trigger] jwk_pieces(key)[i][k]).tag is None,
{
    reveal_strlit("kty");
    reveal_strlit("use");
    reveal_strlit("alg");
    reveal_strlit("kid");
    reveal_strlit("n");
    reveal_strlit("e");
    reveal_strlit("crv");
    reveal_strlit("x");
    reveal_strlit("y");
    reveal_strlit("k");
    let names = jwk_names();
    let pieces = jwk_pieces(key);
    assert forall|i: int, j: int| 0 <= i < j < names.len() implies names[i] != names[j] by {
        if names[i] == names[j] {
            assert(names[i].len() == names[j].len());
            assert(names[i][0] == names[j][0]);
            assert(names[i][1] == names[j][1]);
        }
    }
    assert forall|i: int| 0 <= i < pieces.len() implies uniform(#[trigger] pieces[i], names[i]) by {}
}

/// A key that is written and read again is the key itself.
pub proof fn lemma_jwk_round_trip(key: JsonWebKeyView)
    ensures
        decode_jwk(jwk_json(key)) == Ok::<JsonWebKeyView, JsonFault>(key),
{
    let names = jwk_names();
    let pieces = jwk_pieces(key);
    let entries = flatten(pieces);
    lemma_jwk_layout(key);
    lemma_flatten_untagged(pieces);
    lemma_plain_wire(entries);
    lemma_named_flatten(names, pieces, 0);
    lemma_read_written_text(entries, "kty"@, Some(key.kty));
    lemma_named_flatten(names, pieces, 1);
    lemma_read_written_text(entries, "use"@, key.key_use);
    lemma_named_flatten(names, pieces, 2);
    lemma_read_written_text(entries, "alg"@, key.alg);
    lemma_named_flatten(names, pieces, 3);
    lemma_read_written_text(entries, "kid"@, key.kid);
    lemma_named_flatten(names, pieces, 4);
    lemma_read_written_text(entries, "n"@, key.n);
    lemma_named_flatten(names, pieces, 5);
    lemma_read_written_text(entries, "e"@, key.e);
    lemma_named_flatten(names, pieces, 6);
    lemma_read_written_text(entries, "crv"@, key.crv);
    lemma_named_flatten(names, pieces, 7);
    lemma_read_written_text(entries, "x"@, key.x);
    lemma_named_flatten(names, pieces, 8);
    lemma_read_written_text(entries, "y"@, key.y);
    lemma_named_flatten(names, pieces, 9);
    lemma_read_written_text(entries, "k"@, key.k);
}

/// The key in a value.
pub open spec fn as_jwk(value: Json) -> Option<JsonWebKeyView> {
    match decode_jwk(value) {
        Ok(key) => Some(key),
        Err(_) => None,
    }
}

/// The keys of a key set: the value of its member `keys`, an array of keys.
pub open spec fn decode_jwks(doc: Json) -> Result<Seq<JsonWebKeyView>, JsonFault> {
    match members_of(doc) {
        Ok(members) => required(
            plain_entries(members),
            "keys"@,
            |value: Json| as_list(value, |item: Json| as_jwk(item)),
        ),
        Err(fault) => Err(fault),
    }
}

/// The document that stands for a key set.
pub open spec fn jwks_json(keys: Seq<JsonWebKeyView>) -> Json {
    Json::Object(seq![("keys"@, Json::Array(Seq::new(keys.len(), |i: int| jwk_json(keys[i]))))])
}

/// The key set in a value.
pub open spec fn as_jwks(value: Json) -> Option<Seq<JsonWebKeyView>> {
    match decode_jwks(value) {
        Ok(keys) => Some(keys),
        Err(_) => None,
    }
}

/// A set of JSON Web Keys, in the order of its document. Two keys may carry
/// the same identifier.
#[derive(Debug, PartialEq, Eq)]
pub struct JsonWebKeySet {
    keys: Vec<JsonWebKey>,
}

impl View for JsonWebKeySet {
    type V = Seq<JsonWebKeyView>;

    closed spec fn view(&self) -> Seq<JsonWebKeyView> {
        self.keys.deep_view()
    }
}

impl DeepView for JsonWebKeySet {
    type V = Seq<JsonWebKeyView>;

    open spec fn deep_view(&self) -> Seq<JsonWebKeyView> {
        self@
    }
}

impl Clone for JsonWebKeySet {
    fn clone(&self) -> (copy: JsonWebKeySet)
        ensures
            copy@ == self@,
    {
        let n = self.keys.len();
        let mut keys: Vec<JsonWebKey> = Vec::new();
        let mut i: usize = 0;
        while i < n
            invariant
                n == self.keys.len(),
                i <= n,
                keys.deep_view() == self.keys.deep_view().take(i as int),
            decreases n - i,
        {
            let ghost before = keys.deep_view();
            keys.push(self.keys[i].clone());
            assert(keys.deep_view() =~= before.push(self.keys.deep_view()[i as int]));
            i += 1;
        }
        JsonWebKeySet { keys }
    }
}

/// The keys in an array.
fn keys_of(value: &JsonValue) -> (r: Option<Vec<JsonWebKey>>)
    ensures
        r.deep_view() == as_list(value@, |item: Json| as_jwk(item)),
{
    match value {
        JsonValue::Array(items) => {
            proof {
                lemma_array_view(*value);
            }
            let ghost all = items.deep_view();
            let n = items.len();
            let mut keys: Vec<JsonWebKey> = Vec::new();
            let mut i: usize = 0;
            while i < n
                invariant
                    n == items.len(),
                    i <= n,
                    all == items.deep_view(),
                    value@ == Json::Array(all),
                    keys.len() == i,
                    forall|j: int| 0 <= j < i ==> as_jwk(#[trigger] all[j]) == Some(keys[j]@),
                decreases n - i,
            {
                assert(all[i as int] == items[i as int]@);
                match JsonWebKey::from_json(&items[i]) {
                    Ok(key) => {
                        keys.push(key);
                    },
                    Err(_) => {
                        return None;
                    },
                }
                i += 1;
            }
            Some(keys)
        },
        _ => None,
    }
}

impl JsonWebKeySet {
    /// A key set of these keys, in this order.
    pub fn new(keys: Vec<JsonWebKey>) -> (set: JsonWebKeySet)
        ensures
            set@ == keys.deep_view(),
    {
        JsonWebKeySet { keys }
    }

    /// The keys of the set, in order.
    pub fn keys(&self) -> (keys: &Vec<JsonWebKey>)
        ensures
            keys.deep_view() == self@,
    {
        &self.keys
    }

    /// Reads a key set from its document.
    pub fn from_json(doc: &JsonValue) -> (r: Result<JsonWebKeySet, JsonError>)
        ensures
            agrees(r, decode_jwks(doc@)),
    {
        let entries = match plain_members(doc) {
            Ok(entries) => entries,
            Err(error) => {
                return Err(error);
            },
        };
        match find(&entries, "keys") {
            Err(error) => Err(error),
            Ok(None) => Err(JsonError::MissingField(String::from_str("keys"))),
            Ok(Some(value)) => match keys_of(value) {
                Some(keys) => Ok(JsonWebKeySet { keys }),
                None => Err(JsonError::InvalidValue(String::from_str("keys"))),
            },
        }
    }

    /// Writes the key set as its document, from which it can be read again.
    pub fn to_json(&self) -> (doc: JsonValue)
        ensures
            doc@ == jwks_json(self@),
            decode_jwks(doc@) == Ok::<Seq<JsonWebKeyView>, JsonFault>(self@),
    {
        let n = self.keys.len();
        let mut items: Vec<JsonValue> = Vec::new();
        let mut i: usize = 0;
        while i < n
            invariant
                n == self.keys.len(),
                i <= n,
                items.len() == i,
                forall|j: int| 0 <= j < i ==> (#[trigger] items[j])@ == jwk_json(self.keys[j]@),
            decreases n - i,
        {
            items.push(self.keys[i].to_json());
            i += 1;
        }
        let array = JsonValue::Array(items);
        proof {
            lemma_array_view(array);
            assert(items.deep_view() =~= Seq::new(
                self@.len(),
                |i: int| jwk_json(self@[i]),
            ));
        }
        let mut members: Vec<(String, JsonValue)> = Vec::new();
        members.push((String::from_str("keys"), array));
        let doc = JsonValue::Object(members);
        proof {
            lemma_object_view(doc);
            assert(members.deep_view() =~= seq![("keys"@, array@)]);
            lemma_jwks_round_trip(self@);
        }
        doc
    }
}

/// A key set can always be written as JSON text.
pub proof fn lemma_jwks_writable(keys: Seq<JsonWebKeyView>)
    ensures
        !has_real(jwks_json(keys)),
{
    let items = Seq::new(keys.len(), |i: int| jwk_json(keys[i]));
    assert forall|i: int| 0 <= i < items.len() implies !has_real(#[trigger] items[i]) by {
        let pieces = jwk_pieces(keys[i]);
        assert forall|j: int| 0 <= j < pieces.len() implies writable(#[trigger] pieces[j]) by {}
        lemma_flatten_writable(pieces);
        lemma_writable_object(flatten(pieces));
    }
    let array = Json::Array(items);
    let members = seq![("keys"@, array)];
    assert forall|i: int| 0 <= i < members.len() implies !has_real((#[trigger] members[i]).1) by {}
}

/// A key set that may be absent from an object.
pub open spec fn optional_jwks(entries: Seq<Entry>, name: Seq<char>) -> Result<
    Option<Seq<JsonWebKeyView>>,
    JsonFault,
> {
    optional(entries, name, |value: Json| as_jwks(value))
}

/// The member that stands for a key set that may be absent.
pub open spec fn written_jwks(name: Seq<char>, value: Option<Seq<JsonWebKeyView>>) -> Seq<Entry> {
    crate::writer::written(name, value, |keys: Seq<JsonWebKeyView>| jwks_json(keys))
}

/// Reads a key set that may be absent.
pub fn read_jwks(entries: &Vec<Member>, name: &str) -> (r: Result<Option<JsonWebKeySet>, JsonError>)
    ensures
        agrees(r, optional_jwks(entries.deep_view(), name@)),
{
    match find(entries, name) {
        Err(error) => Err(error),
        Ok(None) => Ok(None),
        Ok(Some(value)) => match JsonWebKeySet::from_json(value) {
            Ok(keys) => Ok(Some(keys)),
            Err(_) => Err(JsonError::InvalidValue(String::from_str(name))),
        },
    }
}

/// Writes a key set that may be absent.
pub fn write_jwks(out: &mut Vec<(String, JsonValue)>, name: &str, value: Option<&JsonWebKeySet>)
    ensures
        final(out).deep_view() == old(out).deep_view() + wire_members(
            written_jwks(name@, value.deep_view()),
        ),
{
    match value {
        Some(keys) => {
            crate::writer::write_member(out, String::from_str(name), keys.to_json());
        },
        None => {},
    }
}

/// A key set that was written is read back.
pub proof fn lemma_read_written_jwks(
    entries: Seq<Entry>,
    name: Seq<char>,
    value: Option<Seq<JsonWebKeyView>>,
)
    requires
        named(entries, name) == written_jwks(name, value),
    ensures
        optional_jwks(entries, name) == Ok::<Option<Seq<JsonWebKeyView>>, JsonFault>(value),
{
    if let Some(keys) = value {
        lemma_jwks_round_trip(keys);
    }
}

/// A key set that is written and read again is the key set itself.
pub proof fn lemma_jwks_round_trip(keys: Seq<JsonWebKeyView>)
    ensures
        decode_jwks(jwks_json(keys)) == Ok::<Seq<JsonWebKeyView>, JsonFault>(keys),
        as_jwks(jwks_json(keys)) == Some(keys),
        !(jwks_json(keys) is Null),
{
    let array = Json::Array(Seq::new(keys.len(), |i: int| jwk_json(keys[i])));
    let members = seq![("keys"@, array)];
    let entries = plain_entries(members);
    crate::writer::lemma_named_uniform(entries, "keys"@, "keys"@);
    let items = array->Array_0;
    assert forall|i: int| 0 <= i < items.len() implies as_jwk(#[trigger] items[i]) == Some(
        keys[i],
    ) by {
        lemma_jwk_round_trip(keys[i]);
    }
    assert(as_list(array, |item: Json| as_jwk(item))->0 =~= keys);
}

} // verus!
