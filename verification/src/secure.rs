//! API keys as the user sees them: only a masked form (the last four bytes)
//! is ever shown, and whether any provider has a usable key decides the
//! onboarding.
use vstd::prelude::*;
use vstd::string::StringSliceAdditionalSpecFns;
use vstd::utf8::{decode_utf8, encode_utf8, is_char_boundary};

use crate::config::{EnvSnapshot, ProviderConfig};
use crate::llm::{effective_key, opt_view};
use crate::text::str_eq;

verus! {

broadcast use vstd::utf8::group_utf8_lib;

/// The key as shown: `****` for a key of at most four bytes, otherwise
/// `****` followed by the key's last four bytes.
pub open spec fn masked(key: Seq<char>) -> Seq<char> {
    let b = encode_utf8(key);
    if b.len() <= 4 {
        "****"@
    } else {
        "****"@ + decode_utf8(b.subrange(b.len() - 4, b.len() as int))
    }
}

/// The last four bytes of the key start a character, so they can be cut
/// off (a key of at most four bytes is always maskable).
pub open spec fn maskable(key: Seq<char>) -> bool {
    let b = encode_utf8(key);
    b.len() > 4 ==> is_char_boundary(b, b.len() - 4)
}

/// Masks a key: only its last four bytes remain visible.
pub fn mask_key(key: &str) -> (r: String)
    requires
        maskable(key@),
    ensures
        r@ == masked(key@),
        vstd::utf8::is_ascii_chars(key@) && key@.len() > 4 ==> r@ == "****"@ + key@.subrange(
            key@.len() - 4,
            key@.len() as int,
        ),
{
    let n = key.as_bytes().len();
    if n <= 4 {
        return "****".to_string();
    }
    let (_, tail) = key.split_at(n - 4);
    let mut r = "****".to_string();
    r.append(tail);
    proof {
        let b = encode_utf8(key@);
        assert(tail.spec_bytes() =~= b.subrange(b.len() - 4, b.len() as int));
        assert(decode_utf8(encode_utf8(tail@)) == tail@);
        if vstd::utf8::is_ascii_chars(key@) {
            lemma_ascii_tail(key@);
        }
    }
    r
}

proof fn lemma_ascii_tail(k: Seq<char>)
    requires
        vstd::utf8::is_ascii_chars(k),
        k.len() > 4,
    ensures
        decode_utf8(encode_utf8(k).subrange(k.len() - 4, k.len() as int)) == k.subrange(
            k.len() - 4,
            k.len() as int,
        ),
{
    let sub = k.subrange(k.len() - 4, k.len() as int);
    assert(vstd::utf8::is_ascii_chars(k));
    assert(vstd::utf8::is_ascii_chars(sub));
    vstd::utf8::is_ascii_chars_encode_utf8(k);
    vstd::utf8::is_ascii_chars_encode_utf8(sub);
    assert(encode_utf8(sub) =~= encode_utf8(k).subrange(k.len() - 4, k.len() as int)) by {
        assert forall|i: int| 0 <= i < 4 implies #[trigger] encode_utf8(sub)[i] == encode_utf8(
            k,
        )[k.len() - 4 + i] by {
            assert(sub[i] == k[k.len() - 4 + i]);
        }
    }
}

/// The mask never shows more of a key than its last four bytes: nothing
/// of a key of at most four bytes, exactly the last four bytes of a longer
/// one, always behind `****`.
pub proof fn law_mask_reveals_last_four_bytes(key: Seq<char>)
    requires
        maskable(key),
    ensures
        masked(key).take(4) == "****"@,
        encode_utf8(key).len() <= 4 ==> masked(key).len() == 4,
        encode_utf8(key).len() > 4 ==> encode_utf8(masked(key).skip(4)) == encode_utf8(key).skip(
            encode_utf8(key).len() - 4,
        ),
{
    reveal_strlit("****");
    let b = encode_utf8(key);
    if b.len() > 4 {
        let tail = b.subrange(b.len() - 4, b.len() as int);
        assert(masked(key).skip(4) =~= decode_utf8(tail));
        vstd::utf8::encode_utf8_valid_utf8(key);
        vstd::utf8::valid_utf8_split(b, b.len() - 4);
        vstd::utf8::decode_utf8_encode_utf8(tail);
        assert(tail =~= b.skip(b.len() - 4));
    }
    assert(masked(key).take(4) =~= "****"@);
}

/// Whether a key can be masked without cutting a character in two.
pub fn is_maskable(key: &str) -> (r: bool)
    ensures
        r == maskable(key@),
{
    let n = key.as_bytes().len();
    n <= 4 || key.is_char_boundary(n - 4)
}

/// The index of the first provider named `name` in `providers[from..]`.
pub open spec fn find_provider_from(providers: Seq<ProviderConfig>, name: Seq<char>, from: int) -> Option<
    int,
>
    decreases providers.len() - from,
{
    if from < 0 || from >= providers.len() {
        None
    } else if providers[from].name@ == name {
        Some(from)
    } else {
        find_provider_from(providers, name, from + 1)
    }
}

/// The key whose mask the settings page shows for a provider: a non-empty
/// keychain entry, otherwise the configured key of the first provider with
/// that name, resolved; none when that is missing or empty.
pub open spec fn shown_key(
    keychain: Option<Seq<char>>,
    providers: Seq<ProviderConfig>,
    name: Seq<char>,
    vars: Seq<(String, String)>,
) -> Option<Seq<char>> {
    if keychain matches Some(k) && k.len() > 0 {
        keychain
    } else {
        match find_provider_from(providers, name, 0) {
            Some(i) => {
                let key = crate::config::resolved_value(providers[i].api_key@, vars);
                if key.len() > 0 {
                    Some(key)
                } else {
                    None
                }
            },
            None => None,
        }
    }
}

fn find_provider(providers: &Vec<ProviderConfig>, name: &str) -> (r: Option<usize>)
    ensures
        r matches Some(i) ==> find_provider_from(providers@, name@, 0) == Some(i as int)
            && i < providers@.len(),
        r is None ==> find_provider_from(providers@, name@, 0) is None,
{
    let mut i: usize = 0;
    while i < providers.len()
        invariant
            0 <= i <= providers@.len(),
            find_provider_from(providers@, name@, 0) == find_provider_from(
                providers@,
                name@,
                i as int,
            ),
        decreases providers@.len() - i,
    {
        if str_eq(providers[i].name.as_str(), name) {
            return Some(i);
        }
        i = i + 1;
    }
    None
}

/// The key whose mask the settings page shows for provider `name`;
/// `keychain` is what the system keychain holds for it.
pub fn shown_api_key(
    name: &str,
    keychain: Option<String>,
    providers: &Vec<ProviderConfig>,
    env: &EnvSnapshot,
) -> (r: Option<String>)
    ensures
        opt_view(r) == shown_key(opt_view(keychain), providers@, name@, env.vars@),
{
    if let Some(k) = &keychain {
        if !k.as_str().is_empty() {
            return keychain;
        }
    }
    match find_provider(providers, name) {
        Some(i) => {
            let key = crate::config::resolve_env_placeholder(providers[i].api_key.as_str(), env);
            if key.as_str().is_empty() {
                None
            } else {
                Some(key)
            }
        },
        None => None,
    }
}

/// The masked key the settings page shows for provider `name`; `keychain`
/// is what the system keychain holds for it.
pub fn get_api_key_mask(
    name: &str,
    keychain: Option<String>,
    providers: &Vec<ProviderConfig>,
    env: &EnvSnapshot,
) -> (r: Option<String>)
    requires
        shown_key(opt_view(keychain), providers@, name@, env.vars@) matches Some(k) ==> maskable(k),
    ensures
        r matches Some(m) ==> shown_key(opt_view(keychain), providers@, name@, env.vars@) matches Some(
            k,
        ) && m@ == masked(k),
        r is None ==> shown_key(opt_view(keychain), providers@, name@, env.vars@) is None,
{
    match shown_api_key(name, keychain, providers, env) {
        Some(k) => Some(mask_key(k.as_str())),
        None => None,
    }
}

/// Whether some provider has a usable key: `keychain[i]` is what the system
/// keychain holds for `providers[i]`.
pub fn has_any_api_key(
    providers: &Vec<ProviderConfig>,
    keychain: &Vec<Option<String>>,
    env: &EnvSnapshot,
) -> (r: bool)
    requires
        keychain@.len() == providers@.len(),
    ensures
        r == exists|i: int|
            0 <= i < providers@.len() && #[trigger] effective_key(
                opt_view(keychain@[i]),
                providers@[i].api_key@,
                env.vars@,
            ).len() > 0,
{
    let mut i: usize = 0;
    while i < providers.len()
        invariant
            keychain@.len() == providers@.len(),
            0 <= i <= providers@.len(),
            forall|j: int|
                0 <= j < i ==> #[trigger] effective_key(
                    opt_view(keychain@[j]),
                    providers@[j].api_key@,
                    env.vars@,
                ).len() == 0,
        decreases providers@.len() - i,
    {
        let in_keychain = match &keychain[i] {
            Some(k) => !k.as_str().is_empty(),
            None => false,
        };
        if in_keychain {
            proof {
                assert(effective_key(opt_view(keychain@[i as int]), providers@[i as int].api_key@, env.vars@).len() > 0);
            }
            return true;
        }
        let key = crate::config::resolve_env_placeholder(providers[i].api_key.as_str(), env);
        if !key.as_str().is_empty() {
            proof {
                assert(effective_key(opt_view(keychain@[i as int]), providers@[i as int].api_key@, env.vars@).len() > 0);
            }
            return true;
        }
        i = i + 1;
    }
    false
}

} // verus!
