//! Canonical identifiers and identifier acceptance.
//!
//! Each calendar kind has one canonical BCP-47 calendar subtag, used as the
//! default when loading skeleton data. Acceptance of an identifier for a kind
//! is by exact string match against the canonical identifier, except for the
//! kinds that override the rule: Ethiopian also accepts the Amete Alem
//! display form, and three of the four Islamic kinds accept dedicated
//! identifiers instead of the shared canonical one. Matching is bit-exact and
//! case-sensitive; the registry only validates a given (kind, identifier)
//! pair and never infers a kind from an identifier alone, since the literal
//! `islamic` subtag is ambiguous in external input.

use crate::kind::{in_registry, CalendarKind};
use vstd::prelude::*;

verus! {

/// The canonical BCP-47 calendar subtag of a kind, total over all kinds.
///
/// The four Islamic kinds share `islamic`, under which their common skeleton
/// data is stored; for the three of them that override their acceptance rule
/// the shared value is not itself an accepted identifier.
pub open spec fn spec_canonical_identifier(kind: CalendarKind) -> Seq<char> {
    match kind {
        CalendarKind::Buddhist => "buddhist"@,
        CalendarKind::Chinese => "chinese"@,
        CalendarKind::Coptic => "coptic"@,
        CalendarKind::Dangi => "dangi"@,
        CalendarKind::Ethiopian => "ethiopic"@,
        CalendarKind::EthiopianAmeteAlem => "ethioaa"@,
        CalendarKind::Gregorian => "gregory"@,
        CalendarKind::Hebrew => "hebrew"@,
        CalendarKind::Indian => "indian"@,
        CalendarKind::IslamicCivil => "islamic"@,
        CalendarKind::IslamicObservational => "islamic"@,
        CalendarKind::IslamicTabular => "islamic"@,
        CalendarKind::IslamicUmmAlQura => "islamic"@,
        CalendarKind::Iso => "iso"@,
        CalendarKind::Japanese => "japanese"@,
        CalendarKind::JapaneseExtended => "japanext"@,
        CalendarKind::Persian => "persian"@,
        CalendarKind::Roc => "roc"@,
    }
}

/// Which identifiers a kind accepts.
///
/// The default rule is equality with the canonical identifier. Ethiopian
/// additionally accepts the Amete Alem display form `ethioaa`; the civil,
/// tabular and Umm al-Qura Islamic kinds accept their dedicated identifiers
/// and not the shared `islamic`. The kinds without a registry entry of their
/// own — the Amete Alem variant and `Iso` — accept no identifier.
pub open spec fn spec_accepts(kind: CalendarKind, id: Seq<char>) -> bool {
    match kind {
        CalendarKind::Ethiopian => id == "ethiopic"@ || id == "ethioaa"@,
        CalendarKind::IslamicCivil => id == "islamicc"@ || id == "islamic-civil"@,
        CalendarKind::IslamicTabular => id == "islamic-tbla"@,
        CalendarKind::IslamicUmmAlQura => id == "islamic-umalqura"@,
        CalendarKind::EthiopianAmeteAlem => false,
        CalendarKind::Iso => false,
        _ => id == spec_canonical_identifier(kind),
    }
}

/// The canonical BCP-47 calendar subtag of a kind.
pub fn canonical_identifier(kind: CalendarKind) -> (r: &'static str)
    ensures
        r@ == spec_canonical_identifier(kind),
{
    match kind {
        CalendarKind::Buddhist => "buddhist",
        CalendarKind::Chinese => "chinese",
        CalendarKind::Coptic => "coptic",
        CalendarKind::Dangi => "dangi",
        CalendarKind::Ethiopian => "ethiopic",
        CalendarKind::EthiopianAmeteAlem => "ethioaa",
        CalendarKind::Gregorian => "gregory",
        CalendarKind::Hebrew => "hebrew",
        CalendarKind::Indian => "indian",
        CalendarKind::IslamicCivil => "islamic",
        CalendarKind::IslamicObservational => "islamic",
        CalendarKind::IslamicTabular => "islamic",
        CalendarKind::IslamicUmmAlQura => "islamic",
        CalendarKind::Iso => "iso",
        CalendarKind::Japanese => "japanese",
        CalendarKind::JapaneseExtended => "japanext",
        CalendarKind::Persian => "persian",
        CalendarKind::Roc => "roc",
    }
}

/// Character-by-character string equality.
pub fn str_eq(a: &str, b: &str) -> (r: bool)
    ensures
        r == (a@ == b@),
{
    let a_len = a.unicode_len();
    let b_len = b.unicode_len();
    if a_len != b_len {
        return false;
    }
    let mut i: usize = 0;
    while i < a_len
        invariant
            a_len == a@.len(),
            b_len == b@.len(),
            a_len == b_len,
            i <= a_len,
            forall|j: int| 0 <= j < i ==> a@[j] == b@[j],
        decreases a_len - i,
    {
        if a.get_char(i) != b.get_char(i) {
            return false;
        }
        i += 1;
    }
    proof {
        assert(a@ =~= b@);
    }
    true
}

/// Checks the two-token form `islamic-{subcal}`: the identifier must split on
/// its internal `-` separator into exactly two subtags, the first equal to
/// `islamic` and the second equal to `subcal`; any other token count is
/// rejected.
pub fn is_islamic_subcal(value: &str, subcal: &str) -> (r: bool)
    requires
        !subcal@.contains('-'),
    ensures
        r == (value@ == "islamic"@ + seq!['-'] + subcal@),
{
    proof {
        reveal_strlit("islamic");
        assert(forall|k: int| 0 <= k < "islamic"@.len() ==> "islamic"@[k] != '-');
    }
    let ghost full: Seq<char> = "islamic"@ + seq!['-'] + subcal@;
    let n = value.unicode_len();
    // Find the first separator.
    let mut i: usize = 0;
    while i < n && value.get_char(i) != '-'
        invariant
            n == value@.len(),
            i <= n,
            forall|j: int| 0 <= j < i ==> value@[j] != '-',
        decreases n - i,
    {
        i += 1;
    }
    if i == n {
        // No separator at all; the two-token form has one at index 7.
        proof {
            if value@ == full {
                assert(value@[7] == '-');
            }
        }
        return false;
    }
    // A second separator would mean more than two tokens.
    let mut j: usize = i + 1;
    while j < n && value.get_char(j) != '-'
        invariant
            n == value@.len(),
            i < j <= n,
            forall|k: int| i < k < j ==> value@[k] != '-',
        decreases n - j,
    {
        j += 1;
    }
    if j < n {
        proof {
            // The two-token form has exactly one separator, at index 7.
            if value@ == full {
                assert(forall|k: int| 0 <= k < 7 ==> value@[k] == "islamic"@[k]);
                assert(forall|k: int| 8 <= k < value@.len() ==> value@[k] == subcal@[k - 8]);
                assert(value@[i as int] == '-' && value@[j as int] == '-');
                assert(subcal@.contains('-')) by {
                    if i != 7 {
                        if i < 7 {
                            assert(value@[i as int] == "islamic"@[i as int]);
                        } else {
                            assert(subcal@[i - 8] == '-');
                        }
                    } else {
                        if j < 7 {
                            assert(value@[j as int] == "islamic"@[j as int]);
                        } else {
                            assert(subcal@[j - 8] == '-');
                        }
                    }
                }
            }
        }
        return false;
    }
    // Exactly one separator, at index i: compare the two tokens.
    let prefix = value.substring_char(0, i);
    let suffix = value.substring_char(i + 1, n);
    let prefix_ok = str_eq(prefix, "islamic");
    let suffix_ok = str_eq(suffix, subcal);
    let r = prefix_ok && suffix_ok;
    proof {
        if r {
            assert(prefix@.len() == 7);
            assert(value@ =~= full) by {
                assert(forall|k: int| 0 <= k < 7 ==> value@[k] == prefix@[k]);
                assert(forall|k: int| 8 <= k < value@.len() ==> value@[k] == suffix@[k - 8]);
            }
        } else {
            if value@ == full {
                // The single separator must sit at index 7, so both tokens
                // would in fact have matched.
                assert(value@[7] == '-');
                if i < 7 {
                    assert(value@[i as int] == "islamic"@[i as int]);
                    assert(false);
                }
                if i > 7 {
                    assert(value@[7] != '-');
                    assert(false);
                }
                assert(i == 7);
                assert(prefix@ =~= "islamic"@);
                assert(suffix@ =~= subcal@);
                assert(false);
            }
        }
    }
    r
}

/// Whether `identifier` is accepted for `kind`.
///
/// This validates a given (kind, identifier) pair; it never infers a kind
/// from the identifier alone.
pub fn accepts(kind: CalendarKind, identifier: &str) -> (r: bool)
    ensures
        r == spec_accepts(kind, identifier@),
{
    match kind {
        CalendarKind::Ethiopian => {
            let r = str_eq(identifier, "ethiopic");
            if r {
                true
            } else {
                str_eq(identifier, "ethioaa")
            }
        },
        CalendarKind::IslamicCivil => {
            let r = str_eq(identifier, "islamicc");
            if r {
                true
            } else {
                proof {
                    reveal_strlit("islamic");
                    reveal_strlit("civil");
                    reveal_strlit("islamic-civil");
                    assert("islamic"@ + seq!['-'] + "civil"@ =~= "islamic-civil"@);
                }
                is_islamic_subcal(identifier, "civil")
            }
        },
        CalendarKind::IslamicTabular => {
            proof {
                reveal_strlit("islamic");
                reveal_strlit("tbla");
                reveal_strlit("islamic-tbla");
                assert("islamic"@ + seq!['-'] + "tbla"@ =~= "islamic-tbla"@);
            }
            is_islamic_subcal(identifier, "tbla")
        },
        CalendarKind::IslamicUmmAlQura => {
            proof {
                reveal_strlit("islamic");
                reveal_strlit("umalqura");
                reveal_strlit("islamic-umalqura");
                assert("islamic"@ + seq!['-'] + "umalqura"@ =~= "islamic-umalqura"@);
            }
            is_islamic_subcal(identifier, "umalqura")
        },
        CalendarKind::EthiopianAmeteAlem => false,
        CalendarKind::Iso => false,
        _ => str_eq(identifier, canonical_identifier(kind)),
    }
}

/// Every kind with a registry entry whose acceptance rule is not one of the
/// three Islamic overrides accepts its own canonical identifier.
///
/// The civil, tabular and Umm al-Qura Islamic kinds are left out: they share
/// the canonical identifier `islamic` solely for skeleton data loading and
/// deliberately exclude it from their acceptance sets.
pub proof fn lemma_accepts_canonical(kind: CalendarKind)
    requires
        in_registry(kind),
        kind != CalendarKind::IslamicCivil,
        kind != CalendarKind::IslamicTabular,
        kind != CalendarKind::IslamicUmmAlQura,
    ensures
        spec_accepts(kind, spec_canonical_identifier(kind)),
{
}

/// Ground facts that tell the known identifier literals apart: every two of
/// them differ in length or in their first character.
proof fn lemma_identifier_literal_facts()
    ensures
        "buddhist"@.len() == 8 && "buddhist"@[0] == 'b',
        "chinese"@.len() == 7 && "chinese"@[0] == 'c',
        "coptic"@.len() == 6 && "coptic"@[0] == 'c',
        "dangi"@.len() == 5 && "dangi"@[0] == 'd',
        "ethiopic"@.len() == 8 && "ethiopic"@[0] == 'e',
        "ethioaa"@.len() == 7 && "ethioaa"@[0] == 'e',
        "gregory"@.len() == 7 && "gregory"@[0] == 'g',
        "hebrew"@.len() == 6 && "hebrew"@[0] == 'h',
        "indian"@.len() == 6 && "indian"@[0] == 'i',
        "islamic"@.len() == 7 && "islamic"@[0] == 'i',
        "islamicc"@.len() == 8 && "islamicc"@[0] == 'i',
        "islamic-civil"@.len() == 13,
        "islamic-tbla"@.len() == 12,
        "islamic-umalqura"@.len() == 16,
        "iso"@.len() == 3 && "iso"@[0] == 'i',
        "japanese"@.len() == 8 && "japanese"@[0] == 'j',
        "japanext"@.len() == 8 && "japanext"@[0] == 'j',
        "persian"@.len() == 7 && "persian"@[0] == 'p',
        "roc"@.len() == 3 && "roc"@[0] == 'r',
{
    reveal_strlit("buddhist");
    reveal_strlit("chinese");
    reveal_strlit("coptic");
    reveal_strlit("dangi");
    reveal_strlit("ethiopic");
    reveal_strlit("ethioaa");
    reveal_strlit("gregory");
    reveal_strlit("hebrew");
    reveal_strlit("indian");
    reveal_strlit("islamic");
    reveal_strlit("islamicc");
    reveal_strlit("islamic-civil");
    reveal_strlit("islamic-tbla");
    reveal_strlit("islamic-umalqura");
    reveal_strlit("iso");
    reveal_strlit("japanese");
    reveal_strlit("japanext");
    reveal_strlit("persian");
    reveal_strlit("roc");
}

/// The Islamic acceptance sets are exactly the dedicated identifiers, they
/// are pairwise disjoint, and no other kind accepts any of them.
pub proof fn lemma_islamic_acceptance_partition(kind: CalendarKind, id: Seq<char>)
    ensures
        spec_accepts(CalendarKind::IslamicCivil, id) <==> (id == "islamicc"@ || id
            == "islamic-civil"@),
        spec_accepts(CalendarKind::IslamicTabular, id) <==> id == "islamic-tbla"@,
        spec_accepts(CalendarKind::IslamicUmmAlQura, id) <==> id == "islamic-umalqura"@,
        spec_accepts(CalendarKind::IslamicObservational, id) <==> id == "islamic"@,
        (id == "islamicc"@ || id == "islamic-civil"@) && spec_accepts(kind, id) ==> kind
            == CalendarKind::IslamicCivil,
        id == "islamic-tbla"@ && spec_accepts(kind, id) ==> kind == CalendarKind::IslamicTabular,
        id == "islamic-umalqura"@ && spec_accepts(kind, id) ==> kind
            == CalendarKind::IslamicUmmAlQura,
        id == "islamic"@ && spec_accepts(kind, id) ==> kind == CalendarKind::IslamicObservational,
{
    lemma_identifier_literal_facts();
    if spec_accepts(kind, id) {
        lemma_accepted_identifiers(kind, id);
    }
}

/// Case split: whatever a kind accepts is in its set of identifiers.
proof fn lemma_accepted_identifiers(kind: CalendarKind, id: Seq<char>)
    requires
        spec_accepts(kind, id),
    ensures
        kind == CalendarKind::Ethiopian ==> id == "ethiopic"@ || id == "ethioaa"@,
        kind == CalendarKind::IslamicCivil ==> id == "islamicc"@ || id == "islamic-civil"@,
        kind == CalendarKind::IslamicTabular ==> id == "islamic-tbla"@,
        kind == CalendarKind::IslamicUmmAlQura ==> id == "islamic-umalqura"@,
        !(kind == CalendarKind::Ethiopian || kind == CalendarKind::IslamicCivil || kind
            == CalendarKind::IslamicTabular || kind == CalendarKind::IslamicUmmAlQura) ==> id
            == spec_canonical_identifier(kind),
{
    match kind {
        CalendarKind::Ethiopian => {
            assert(id == "ethiopic"@ || id == "ethioaa"@);
        },
        CalendarKind::IslamicCivil => {
            assert(id == "islamicc"@ || id == "islamic-civil"@);
        },
        CalendarKind::IslamicTabular => {
            assert(id == "islamic-tbla"@);
        },
        CalendarKind::IslamicUmmAlQura => {
            assert(id == "islamic-umalqura"@);
        },
        _ => {
            assert(id == spec_canonical_identifier(kind));
        },
    }
}

/// Ethiopian accepts exactly `ethiopic` (canonical) and `ethioaa` (the Amete
/// Alem display form), and no other kind accepts either — in particular the
/// Amete Alem kind itself has no registry entry and accepts nothing.
pub proof fn lemma_ethiopian_acceptance(kind: CalendarKind, id: Seq<char>)
    ensures
        spec_accepts(CalendarKind::Ethiopian, id) <==> (id == "ethiopic"@ || id == "ethioaa"@),
        (id == "ethiopic"@ || id == "ethioaa"@) && spec_accepts(kind, id) ==> kind
            == CalendarKind::Ethiopian,
{
    lemma_identifier_literal_facts();
    if spec_accepts(kind, id) {
        lemma_accepted_identifiers(kind, id);
    }
}

} // verus!
