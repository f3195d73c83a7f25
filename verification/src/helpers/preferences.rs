//! Per-user defaults: the currency pair and the display precision that a
//! user last asked to keep, and what stands in for them when nothing was kept.

use crate::helpers::store::{store_get, write_views, StoreWrite};
use crate::text::{
    decimal_text, join, opt_text, opt_text_ref, parse_usize, spec_parse_usize, usize_to_string,
};
use vstd::prelude::*;

verus! {

/// The precision used when none is asked for and none is stored.
pub const DEFAULT_PRECISION: usize = 4;

/// The currency converted from when none is asked for and none is stored.
pub open spec fn default_from() -> Seq<char> {
    "USD"@
}

/// The currency converted to when none is asked for and none is stored.
pub open spec fn default_to() -> Seq<char> {
    "JPY"@
}

/// The key under which the store holds the source currency of `username`.
pub open spec fn from_key_of(username: Seq<char>) -> Seq<char> {
    username + ":currency_from"@
}

/// The key under which the store holds the target currency of `username`.
pub open spec fn to_key_of(username: Seq<char>) -> Seq<char> {
    username + ":currency_to"@
}

/// The key under which the store holds the precision of `username`.
pub open spec fn precision_key_of(username: Seq<char>) -> Seq<char> {
    username + ":currency_precision"@
}

/// The precision that stored text stands for: the number it denotes, and the
/// default where there is no text or it denotes no number.
pub open spec fn precision_of(stored: Option<Seq<char>>) -> usize {
    match stored {
        Some(text) => match spec_parse_usize(text) {
            Some(precision) => precision,
            None => DEFAULT_PRECISION,
        },
        None => DEFAULT_PRECISION,
    }
}

/// `value` where there is one, else `fallback`.
pub open spec fn text_or(value: Option<Seq<char>>, fallback: Seq<char>) -> Seq<char> {
    match value {
        Some(text) => text,
        None => fallback,
    }
}

/// What the store holds for one user, as it was read: `None` where a key is
/// absent or could not be read.
#[derive(Clone, Debug, PartialEq, Eq)]
pub struct StoredPreferences {
    pub currency_from: Option<String>,
    pub currency_to: Option<String>,
    pub currency_precision: Option<String>,
}

/// What a `StoredPreferences` holds, as mathematical values.
pub struct StoredPreferencesView {
    pub currency_from: Option<Seq<char>>,
    pub currency_to: Option<Seq<char>>,
    pub currency_precision: Option<Seq<char>>,
}

impl View for StoredPreferences {
    type V = StoredPreferencesView;

    open spec fn view(&self) -> StoredPreferencesView {
        StoredPreferencesView {
            currency_from: opt_text(self.currency_from),
            currency_to: opt_text(self.currency_to),
            currency_precision: opt_text(self.currency_precision),
        }
    }
}

/// What a store holds for `username`.
pub open spec fn stored_preferences(
    store: Map<Seq<char>, Seq<char>>,
    username: Seq<char>,
) -> StoredPreferencesView {
    StoredPreferencesView {
        currency_from: store_get(store, from_key_of(username)),
        currency_to: store_get(store, to_key_of(username)),
        currency_precision: store_get(store, precision_key_of(username)),
    }
}

/// The writes that keep a currency pair and a precision for `username`: the
/// target currency, the source currency and the precision, in this order.
pub open spec fn default_writes(
    username: Seq<char>,
    from: Seq<char>,
    to: Seq<char>,
    precision: usize,
) -> Seq<(Seq<char>, Seq<char>)> {
    seq![
        (to_key_of(username), to),
        (from_key_of(username), from),
        (precision_key_of(username), decimal_text(precision as nat)),
    ]
}

/// The three keys of one user differ from each other.
pub proof fn lemma_preference_keys_differ(username: Seq<char>)
    ensures
        from_key_of(username) != to_key_of(username),
        from_key_of(username) != precision_key_of(username),
        to_key_of(username) != precision_key_of(username),
{
    reveal_strlit(":currency_from");
    reveal_strlit(":currency_to");
    reveal_strlit(":currency_precision");
    assert(from_key_of(username).len() == username.len() + 14);
    assert(to_key_of(username).len() == username.len() + 12);
    assert(precision_key_of(username).len() == username.len() + 19);
}

/// The per-user defaults, kept in the key-value store.
pub struct PreferenceStore {}

impl PreferenceStore {
    /// The key of the source currency of `username`.
    pub fn from_key(username: &str) -> (key: String)
        ensures
            key@ == from_key_of(username@),
    {
        join(username, ":currency_from")
    }

    /// The key of the target currency of `username`.
    pub fn to_key(username: &str) -> (key: String)
        ensures
            key@ == to_key_of(username@),
    {
        join(username, ":currency_to")
    }

    /// The key of the precision of `username`.
    pub fn precision_key(username: &str) -> (key: String)
        ensures
            key@ == precision_key_of(username@),
    {
        join(username, ":currency_precision")
    }

    /// The source currency of a user, given what the store holds under the
    /// user's key: that text, or `USD` where there is none.
    pub fn get_default_from(stored: Option<&String>) -> (code: String)
        ensures
            code@ == text_or(opt_text_ref(stored), default_from()),
    {
        match stored {
            Some(text) => text.clone(),
            None => "USD".to_owned(),
        }
    }

    /// The target currency of a user, given what the store holds under the
    /// user's key: that text, or `JPY` where there is none.
    pub fn get_default_to(stored: Option<&String>) -> (code: String)
        ensures
            code@ == text_or(opt_text_ref(stored), default_to()),
    {
        match stored {
            Some(text) => text.clone(),
            None => "JPY".to_owned(),
        }
    }

    /// The precision of a user, given what the store holds under the user's
    /// key: the number that the text denotes, or `4` where there is no text
    /// or it denotes no number.
    pub fn get_default_precision(stored: Option<&String>) -> (precision: usize)
        ensures
            precision == precision_of(opt_text_ref(stored)),
    {
        match stored {
            Some(text) => match parse_usize(text.as_str()) {
                Some(precision) => precision,
                None => DEFAULT_PRECISION,
            },
            None => DEFAULT_PRECISION,
        }
    }

    /// The writes that keep `from`, `to` and `precision` as the defaults of
    /// `username`. The store takes them one by one: where one fails, those
    /// before it stay written.
    pub fn set_defaults(username: &str, from: &str, to: &str, precision: usize) -> (writes: Vec<
        StoreWrite,
    >)
        ensures
            write_views(writes@) == default_writes(username@, from@, to@, precision),
    {
        let mut writes: Vec<StoreWrite> = Vec::new();
        writes.push(StoreWrite { key: PreferenceStore::to_key(username), value: to.to_owned() });
        writes.push(
            StoreWrite { key: PreferenceStore::from_key(username), value: from.to_owned() },
        );
        writes.push(
            StoreWrite {
                key: PreferenceStore::precision_key(username),
                value: usize_to_string(precision),
            },
        );
        assert(write_views(writes@) =~= default_writes(username@, from@, to@, precision));
        writes
    }
}

} // verus!
