use calendar_data::calendar::{
    Buddhist, CldrCalendar, Ethiopian, Gregorian, IslamicCivil, IslamicTabular, IslamicUmmAlQura,
    JapaneseExtended, Roc,
};
use calendar_data::identifier::{accepts, canonical_identifier, is_islamic_subcal};
use calendar_data::kind::{dispatch_family, CalendarKind, DataFamily};

fn all_kinds() -> Vec<CalendarKind> {
    vec![
        CalendarKind::Buddhist,
        CalendarKind::Chinese,
        CalendarKind::Coptic,
        CalendarKind::Dangi,
        CalendarKind::Ethiopian,
        CalendarKind::EthiopianAmeteAlem,
        CalendarKind::Gregorian,
        CalendarKind::Hebrew,
        CalendarKind::Indian,
        CalendarKind::IslamicCivil,
        CalendarKind::IslamicObservational,
        CalendarKind::IslamicTabular,
        CalendarKind::IslamicUmmAlQura,
        CalendarKind::Iso,
        CalendarKind::Japanese,
        CalendarKind::JapaneseExtended,
        CalendarKind::Persian,
        CalendarKind::Roc,
    ]
}

#[test]
fn canonical_identifiers() {
    assert_eq!("buddhist", canonical_identifier(CalendarKind::Buddhist));
    assert_eq!("chinese", canonical_identifier(CalendarKind::Chinese));
    assert_eq!("coptic", canonical_identifier(CalendarKind::Coptic));
    assert_eq!("dangi", canonical_identifier(CalendarKind::Dangi));
    assert_eq!("ethiopic", canonical_identifier(CalendarKind::Ethiopian));
    assert_eq!(
        "ethioaa",
        canonical_identifier(CalendarKind::EthiopianAmeteAlem)
    );
    assert_eq!("gregory", canonical_identifier(CalendarKind::Gregorian));
    assert_eq!("hebrew", canonical_identifier(CalendarKind::Hebrew));
    assert_eq!("indian", canonical_identifier(CalendarKind::Indian));
    assert_eq!("islamic", canonical_identifier(CalendarKind::IslamicCivil));
    assert_eq!(
        "islamic",
        canonical_identifier(CalendarKind::IslamicObservational)
    );
    assert_eq!(
        "islamic",
        canonical_identifier(CalendarKind::IslamicTabular)
    );
    assert_eq!(
        "islamic",
        canonical_identifier(CalendarKind::IslamicUmmAlQura)
    );
    assert_eq!("iso", canonical_identifier(CalendarKind::Iso));
    assert_eq!("japanese", canonical_identifier(CalendarKind::Japanese));
    assert_eq!(
        "japanext",
        canonical_identifier(CalendarKind::JapaneseExtended)
    );
    assert_eq!("persian", canonical_identifier(CalendarKind::Persian));
    assert_eq!("roc", canonical_identifier(CalendarKind::Roc));
}

#[test]
fn plain_kinds_accept_their_canonical_identifier() {
    let plain = vec![
        CalendarKind::Buddhist,
        CalendarKind::Chinese,
        CalendarKind::Coptic,
        CalendarKind::Dangi,
        CalendarKind::Ethiopian,
        CalendarKind::Gregorian,
        CalendarKind::Hebrew,
        CalendarKind::Indian,
        CalendarKind::IslamicObservational,
        CalendarKind::Japanese,
        CalendarKind::JapaneseExtended,
        CalendarKind::Persian,
        CalendarKind::Roc,
    ];
    for kind in plain {
        assert!(
            accepts(kind, canonical_identifier(kind)),
            "{:?} must accept its canonical identifier",
            kind
        );
    }
    // The three overriding Islamic kinds use the shared canonical value for
    // skeleton loading only and do not accept it.
    assert!(!accepts(CalendarKind::IslamicCivil, "islamic"));
    assert!(!accepts(CalendarKind::IslamicTabular, "islamic"));
    assert!(!accepts(CalendarKind::IslamicUmmAlQura, "islamic"));
    // The kinds without a registry entry accept nothing, their own BCP-47
    // name included.
    assert!(!accepts(CalendarKind::EthiopianAmeteAlem, "ethioaa"));
    assert!(!accepts(CalendarKind::Iso, "iso"));
}

#[test]
fn islamic_acceptance_partition() {
    let identifiers = vec![
        "islamic",
        "islamicc",
        "islamic-civil",
        "islamic-tbla",
        "islamic-umalqura",
    ];
    for id in &identifiers {
        let mut acceptors: Vec<CalendarKind> = Vec::new();
        for kind in all_kinds() {
            if accepts(kind, id) {
                acceptors.push(kind);
            }
        }
        let expected = match *id {
            "islamic" => CalendarKind::IslamicObservational,
            "islamicc" | "islamic-civil" => CalendarKind::IslamicCivil,
            "islamic-tbla" => CalendarKind::IslamicTabular,
            "islamic-umalqura" => CalendarKind::IslamicUmmAlQura,
            _ => unreachable!(),
        };
        assert_eq!(vec![expected], acceptors, "acceptors of {:?}", id);
    }
}

#[test]
fn ethiopian_acceptance() {
    for id in ["ethiopic", "ethioaa"] {
        let mut acceptors: Vec<CalendarKind> = Vec::new();
        for kind in all_kinds() {
            if accepts(kind, id) {
                acceptors.push(kind);
            }
        }
        assert_eq!(vec![CalendarKind::Ethiopian], acceptors, "acceptors of {:?}", id);
    }
}

#[test]
fn two_token_form_splits_exactly_once() {
    assert!(is_islamic_subcal("islamic-civil", "civil"));
    assert!(is_islamic_subcal("islamic-tbla", "tbla"));
    // One token, a wrong first token, a wrong second token, three tokens,
    // and an empty second token are all rejected.
    assert!(!is_islamic_subcal("islamic", "civil"));
    assert!(!is_islamic_subcal("civil-islamic", "civil"));
    assert!(!is_islamic_subcal("islamic-tbla", "civil"));
    assert!(!is_islamic_subcal("islamic-civil-x", "civil"));
    assert!(!is_islamic_subcal("islamic-", "civil"));
    assert!(!accepts(CalendarKind::IslamicCivil, "islamic-civil-x"));
    assert!(!accepts(CalendarKind::IslamicUmmAlQura, "islamic-civil"));
}

#[test]
fn unknown_identifiers_are_rejected() {
    for kind in all_kinds() {
        assert!(!accepts(kind, ""));
        assert!(!accepts(kind, "julian"));
        assert!(!accepts(kind, "Gregory"));
    }
    for kind in all_kinds() {
        assert_eq!(kind == CalendarKind::Gregorian, accepts(kind, "gregory"));
    }
}

#[test]
fn dispatch_table_covers_every_kind_but_iso() {
    for kind in all_kinds() {
        let family = dispatch_family(kind);
        if kind == CalendarKind::Iso {
            assert_eq!(None, family);
        } else {
            assert!(family.is_some(), "{:?} must have a dispatch entry", kind);
        }
    }
    // Display variants route to the family of the data they share.
    assert_eq!(
        dispatch_family(CalendarKind::Ethiopian),
        dispatch_family(CalendarKind::EthiopianAmeteAlem)
    );
    assert_eq!(
        Some(DataFamily::Islamic),
        dispatch_family(CalendarKind::IslamicCivil)
    );
    assert_eq!(
        Some(DataFamily::Islamic),
        dispatch_family(CalendarKind::IslamicObservational)
    );
    assert_eq!(
        Some(DataFamily::Islamic),
        dispatch_family(CalendarKind::IslamicTabular)
    );
    assert_eq!(
        Some(DataFamily::Islamic),
        dispatch_family(CalendarKind::IslamicUmmAlQura)
    );
    assert_eq!(
        Some(DataFamily::Gregorian),
        dispatch_family(CalendarKind::Gregorian)
    );
}

#[test]
fn static_path_agrees_with_the_registry() {
    assert_eq!(CalendarKind::Buddhist, Buddhist::kind());
    assert_eq!(CalendarKind::Gregorian, Gregorian::kind());
    assert_eq!(CalendarKind::Roc, Roc::kind());
    assert_eq!("buddhist", Buddhist::default_bcp47_identifier());
    assert_eq!("ethiopic", Ethiopian::default_bcp47_identifier());
    assert_eq!("islamic", IslamicCivil::default_bcp47_identifier());
    assert_eq!(DataFamily::Islamic, IslamicTabular::data_family());
    assert_eq!(DataFamily::JapaneseExtended, JapaneseExtended::data_family());
    assert!(Gregorian::is_identifier_allowed_for_calendar("gregory"));
    assert!(Ethiopian::is_identifier_allowed_for_calendar("ethioaa"));
    assert!(IslamicCivil::is_identifier_allowed_for_calendar("islamicc"));
    assert!(IslamicUmmAlQura::is_identifier_allowed_for_calendar(
        "islamic-umalqura"
    ));
    assert!(!IslamicUmmAlQura::is_identifier_allowed_for_calendar(
        "islamic"
    ));
}
