//! Merchant detection: scans uppercased receipt text for catalog key
//! substrings with a deterministic tie-break (longest key text first,
//! ties lexicographic), then multi-word aliases, then
//! organisation-number patterns in the raw text.

use vstd::prelude::*;
use crate::catalog::{
    all_keys, base_confidence_of, catalog_order, detection_priority, key_chars, key_text, name_of,
    org_pattern_of, priority_keys, profile_of, wf_profile, MerchantKey, MerchantProfile,
};
use crate::learning::LearningStore;
use crate::text::{chars_of, contains_chars, contains_seq, upper_chars, upper_of};

verus! {

/// A detected merchant together with the effective confidence that
/// blends the profile's base confidence with the learned adjustment.
#[derive(PartialEq, Debug)]
pub struct DetectionResult {
    pub profile: MerchantProfile,
    /// Effective confidence in thousandths.
    pub effective_confidence: u32,
}

/// The blended confidence: the arithmetic mean of base confidence and
/// learned adjustment, both in thousandths.
pub open spec fn blend(base: int, adjustment: int) -> int {
    (base + adjustment) / 2
}

/// First key in `keys` whose catalog key text occurs in `upper`.
pub open spec fn first_key_match(upper: Seq<char>, keys: Seq<MerchantKey>) -> Option<MerchantKey>
    decreases keys.len(),
{
    if keys.len() == 0 {
        None
    } else if contains_seq(upper, key_chars(keys[0])) {
        Some(keys[0])
    } else {
        first_key_match(upper, keys.drop_first())
    }
}

/// The hardcoded multi-word aliases, checked only when no catalog key
/// text occurs in the text.
pub open spec fn alias_list() -> Seq<(Seq<char>, MerchantKey)> {
    seq![
        ("REMA 1000"@, MerchantKey::Rema),
        ("REMA1000"@, MerchantKey::Rema),
        ("ICA SUPERMARKET"@, MerchantKey::Ica),
        ("ICA MAXI"@, MerchantKey::Ica),
        ("COOP EXTRA"@, MerchantKey::Coop),
        ("COOP MEGA"@, MerchantKey::Coop),
        ("COOP PRIX"@, MerchantKey::Coop),
        ("POSTEN NORGE"@, MerchantKey::Posten),
        ("POST NORGE"@, MerchantKey::Posten),
    ]
}

/// First alias in `aliases` whose text occurs in `upper`.
pub open spec fn first_alias_match(
    upper: Seq<char>,
    aliases: Seq<(Seq<char>, MerchantKey)>,
) -> Option<MerchantKey>
    decreases aliases.len(),
{
    if aliases.len() == 0 {
        None
    } else if contains_seq(upper, aliases[0].0) {
        Some(aliases[0].1)
    } else {
        first_alias_match(upper, aliases.drop_first())
    }
}

/// First key in `keys` whose organisation-number pattern occurs in
/// the raw text.
pub open spec fn first_org_match(raw: Seq<char>, keys: Seq<MerchantKey>) -> Option<MerchantKey>
    decreases keys.len(),
{
    if keys.len() == 0 {
        None
    } else if org_pattern_of(keys[0]) matches Some(p) && contains_seq(raw, p) {
        Some(keys[0])
    } else {
        first_org_match(raw, keys.drop_first())
    }
}

/// The merchant detected in a text: catalog keys in priority order,
/// then aliases, then organisation-number patterns.
pub open spec fn detected_key(upper: Seq<char>, raw: Seq<char>) -> Option<MerchantKey> {
    if first_key_match(upper, detection_priority()) is Some {
        first_key_match(upper, detection_priority())
    } else if first_alias_match(upper, alias_list()) is Some {
        first_alias_match(upper, alias_list())
    } else {
        first_org_match(raw, catalog_order())
    }
}

/// The alias table entry at position `j`.
fn alias_at(j: usize) -> (r: (&'static str, MerchantKey))
    requires
        j < alias_list().len(),
    ensures
        r.0@ == alias_list()[j as int].0,
        r.1 == alias_list()[j as int].1,
{
    match j {
        0 => ("REMA 1000", MerchantKey::Rema),
        1 => ("REMA1000", MerchantKey::Rema),
        2 => ("ICA SUPERMARKET", MerchantKey::Ica),
        3 => ("ICA MAXI", MerchantKey::Ica),
        4 => ("COOP EXTRA", MerchantKey::Coop),
        5 => ("COOP MEGA", MerchantKey::Coop),
        6 => ("COOP PRIX", MerchantKey::Coop),
        7 => ("POSTEN NORGE", MerchantKey::Posten),
        _ => {
            assert(j == 8);
            ("POST NORGE", MerchantKey::Posten)
        },
    }
}

/// The key of the merchant detected in `text`, if any.
pub fn detect_key(text: &str) -> (r: Option<MerchantKey>)
    ensures
        r == detected_key(upper_of(text@), text@),
{
    let upper = upper_chars(text);
    let ghost up = upper_of(text@);

    // Catalog keys, in detection priority order.
    let prio = priority_keys();
    proof {
        assert(detection_priority().skip(0) =~= detection_priority());
    }
    let mut i: usize = 0;
    while i < prio.len()
        invariant
            up == upper_of(text@),
            upper@ == up,
            prio@ == detection_priority(),
            i <= prio@.len(),
            first_key_match(up, detection_priority()) == first_key_match(
                up,
                detection_priority().skip(i as int),
            ),
        decreases prio@.len() - i,
    {
        let k = prio[i];
        let needle = chars_of(key_text(k));
        proof {
            assert(detection_priority().skip(i as int)[0] == k);
        }
        if contains_chars(&upper, &needle) {
            return Some(k);
        }
        proof {
            assert(detection_priority().skip(i as int).drop_first() =~= detection_priority().skip(
                i as int + 1,
            ));
        }
        i += 1;
    }
    proof {
        assert(detection_priority().skip(prio@.len() as int) =~= Seq::<MerchantKey>::empty());
    }

    // Multi-word aliases.
    proof {
        assert(alias_list().skip(0) =~= alias_list());
    }
    let mut j: usize = 0;
    while j < 9
        invariant
            up == upper_of(text@),
            upper@ == up,
            j <= alias_list().len(),
            first_key_match(up, detection_priority()) is None,
            first_alias_match(up, alias_list()) == first_alias_match(up, alias_list().skip(j as int)),
        decreases alias_list().len() - j,
    {
        let (alias, k) = alias_at(j);
        let needle = chars_of(alias);
        proof {
            assert(alias_list().skip(j as int)[0] == alias_list()[j as int]);
        }
        if contains_chars(&upper, &needle) {
            return Some(k);
        }
        proof {
            assert(alias_list().skip(j as int).drop_first() =~= alias_list().skip(j as int + 1));
        }
        j += 1;
    }
    proof {
        assert(alias_list().skip(9) =~= Seq::<(Seq<char>, MerchantKey)>::empty());
    }

    // Organisation-number patterns, in catalog order, on the raw text.
    let raw = chars_of(text);
    let keys = all_keys();
    proof {
        assert(catalog_order().skip(0) =~= catalog_order());
    }
    let mut m: usize = 0;
    while m < keys.len()
        invariant
            up == upper_of(text@),
            raw@ == text@,
            keys@ == catalog_order(),
            m <= keys@.len(),
            first_key_match(up, detection_priority()) is None,
            first_alias_match(up, alias_list()) is None,
            first_org_match(text@, catalog_order()) == first_org_match(
                text@,
                catalog_order().skip(m as int),
            ),
        decreases keys@.len() - m,
    {
        let k = keys[m];
        proof {
            assert(catalog_order().skip(m as int)[0] == k);
        }
        if let Some(pattern) = org_pattern_text(k) {
            let needle = chars_of(pattern);
            if contains_chars(&raw, &needle) {
                return Some(k);
            }
        }
        proof {
            assert(catalog_order().skip(m as int).drop_first() =~= catalog_order().skip(
                m as int + 1,
            ));
        }
        m += 1;
    }
    proof {
        assert(catalog_order().skip(keys@.len() as int) =~= Seq::<MerchantKey>::empty());
    }
    None
}

/// The organisation-number pattern text for a key, if any.
fn org_pattern_text(k: MerchantKey) -> (r: Option<&'static str>)
    ensures
        match r {
            Some(s) => org_pattern_of(k) == Some(s@),
            None => org_pattern_of(k) is None,
        },
{
    match k {
        MerchantKey::Rema => Some("999208372"),
        MerchantKey::Posten => Some("984661185"),
        MerchantKey::Vinmonopolet => Some("971425831"),
        _ => None,
    }
}

/// Detects a merchant without consulting the learning store: the
/// profile's own base confidence stands.
pub fn detect_merchant(text: &str) -> (r: Option<MerchantProfile>)
    ensures
        r is Some <==> detected_key(upper_of(text@), text@) is Some,
        r matches Some(p) ==> Some(p.key) == detected_key(upper_of(text@), text@) && wf_profile(p),
{
    match detect_key(text) {
        Some(k) => Some(profile_of(k)),
        None => None,
    }
}

/// Detects a merchant and blends its base confidence with the learned
/// adjustment for its name.
pub fn detect_merchant_with_learning(text: &str, store: &LearningStore) -> (r: Option<
    DetectionResult,
>)
    requires
        store.wf(),
    ensures
        r is Some <==> detected_key(upper_of(text@), text@) is Some,
        r matches Some(d) ==> Some(d.profile.key) == detected_key(upper_of(text@), text@)
            && wf_profile(d.profile) && d.effective_confidence == blend(
            base_confidence_of(d.profile.key) as int,
            store.adj_spec(name_of(d.profile.key)),
        ),
{
    match detect_key(text) {
        Some(k) => {
            let profile = profile_of(k);
            let adjustment = store.adjustment_for(profile.name.as_str());
            proof {
                assert(base_confidence_of(k) <= 990);
            }
            let effective_confidence = (profile.base_confidence + adjustment) / 2;
            Some(DetectionResult { profile, effective_confidence })
        },
        None => None,
    }
}

/// The length of a catalog key's text.
pub open spec fn key_len(k: MerchantKey) -> int {
    key_chars(k).len() as int
}

/// Strict lexicographic order on character sequences.
pub open spec fn lex_less(x: Seq<char>, y: Seq<char>) -> bool
    decreases x.len(),
{
    if y.len() == 0 {
        false
    } else if x.len() == 0 {
        true
    } else if x[0] != y[0] {
        x[0] < y[0]
    } else {
        lex_less(x.drop_first(), y.drop_first())
    }
}

proof fn lemma_lex_asym(x: Seq<char>, y: Seq<char>)
    requires
        lex_less(x, y),
    ensures
        !lex_less(y, x),
    decreases x.len(),
{
    if y.len() > 0 && x.len() > 0 && x[0] == y[0] {
        lemma_lex_asym(x.drop_first(), y.drop_first());
    }
}

/// The detection priority list is sorted: longer key texts first,
/// equal lengths in lexicographic order.
proof fn lemma_priority_sorted()
    ensures
        forall|p: int, q: int|
            0 <= p < q < detection_priority().len() ==> key_len(#[trigger] detection_priority()[p])
                > key_len(#[trigger] detection_priority()[q]) || (key_len(detection_priority()[p])
                == key_len(detection_priority()[q]) && lex_less(
                key_chars(detection_priority()[p]),
                key_chars(detection_priority()[q]),
            )),
{
    reveal_strlit("VINMONOPOLET");
    reveal_strlit("CIRCLE K");
    reveal_strlit("POSTEN");
    reveal_strlit("SHELL");
    reveal_strlit("COOP");
    reveal_strlit("KIWI");
    reveal_strlit("REMA");
    reveal_strlit("TINE");
    reveal_strlit("ICA");
    assert(lex_less("COOP"@, "KIWI"@));
    assert(lex_less("KIWI"@, "REMA"@));
    assert(lex_less("REMA"@, "TINE"@));
    assert(lex_less("COOP"@, "REMA"@));
    assert(lex_less("COOP"@, "TINE"@));
    assert(lex_less("KIWI"@, "TINE"@));
}

/// Law: the detection tie-break is deterministic.  When the key texts
/// of `a` and `b` both occur in the uppercased text and `a`'s text is
/// strictly longer — or equally long and lexicographically earlier —
/// detection answers some key and never answers `b`.  Detection is a
/// pure function of the text, so repeated calls on identical input
/// return the identical merchant.
pub proof fn lemma_tie_break(upper: Seq<char>, raw: Seq<char>, a: MerchantKey, b: MerchantKey)
    requires
        detection_priority().contains(a),
        detection_priority().contains(b),
        contains_seq(upper, key_chars(a)),
        contains_seq(upper, key_chars(b)),
        key_len(a) > key_len(b) || (key_len(a) == key_len(b) && lex_less(
            key_chars(a),
            key_chars(b),
        )),
    ensures
        detected_key(upper, raw) is Some,
        detected_key(upper, raw) != Some(b),
{
    lemma_first_key_match_some(upper, detection_priority(), a);
    lemma_first_key_match_index(upper, detection_priority());
    lemma_priority_sorted();
    if a == b {
        lemma_lex_asym(key_chars(a), key_chars(b));
    }
    if detected_key(upper, raw) == Some(b) {
        let keys = detection_priority();
        let i = choose|i: int|
            0 <= i < keys.len() && keys[i] == b && contains_seq(upper, key_chars(b)) && (forall|
                j: int,
            |
                0 <= j < i ==> !contains_seq(upper, key_chars(#[trigger] keys[j])));
        let pa = choose|p: int| 0 <= p < keys.len() && keys[p] == a;
        assert(pa >= i);
        assert(pa != i);
        if key_len(a) == key_len(b) {
            lemma_lex_asym(key_chars(a), key_chars(b));
        }
    }
}

/// Whenever some listed key matches, the scan answers a key, and the
/// answered key stands no later in the list than any matching key.
proof fn lemma_first_key_match_some(upper: Seq<char>, keys: Seq<MerchantKey>, a: MerchantKey)
    requires
        keys.contains(a),
        contains_seq(upper, key_chars(a)),
    ensures
        first_key_match(upper, keys) is Some,
    decreases keys.len(),
{
    if keys.len() > 0 && !contains_seq(upper, key_chars(keys[0])) {
        assert(keys[0] != a);
        let i = choose|i: int| 0 <= i < keys.len() && keys[i] == a;
        assert(keys.drop_first()[i - 1] == a);
        lemma_first_key_match_some(upper, keys.drop_first(), a);
    }
}

/// The answered key's position: every matching key stands at or after
/// the first match in the list.
proof fn lemma_first_key_match_index(upper: Seq<char>, keys: Seq<MerchantKey>)
    ensures
        first_key_match(upper, keys) matches Some(k) ==> exists|i: int|
            0 <= i < keys.len() && keys[i] == k && contains_seq(upper, key_chars(k)) && (forall|
                j: int,
            |
                0 <= j < i ==> !contains_seq(upper, key_chars(#[trigger] keys[j]))),
    decreases keys.len(),
{
    if keys.len() > 0 {
        if contains_seq(upper, key_chars(keys[0])) {
            assert(first_key_match(upper, keys) == Some(keys[0]));
        } else {
            lemma_first_key_match_index(upper, keys.drop_first());
            if let Some(k) = first_key_match(upper, keys.drop_first()) {
                let i = choose|i: int|
                    0 <= i < keys.drop_first().len() && keys.drop_first()[i] == k && contains_seq(
                        upper,
                        key_chars(k),
                    ) && (forall|j: int|
                        0 <= j < i ==> !contains_seq(
                            upper,
                            key_chars(#[trigger] keys.drop_first()[j]),
                        ));
                assert(keys[i + 1] == k);
                assert(forall|j: int|
                    1 <= j < i + 1 ==> keys.drop_first()[j - 1] == #[trigger] keys[j]);
            }
        }
    }
}

} // verus!
