use calendar_data::error::{DataError, WeekAttribute};
use calendar_data::source::Locale;
use calendar_data::week_data::{
    load_week_data_v1, load_week_data_v2, resolve_week_attribute, supported_locales, IsoWeekday,
    TerritoryKey, WeekDataTable, WeekdaySet,
};

fn region(code: &str) -> TerritoryKey {
    TerritoryKey::Region(code.to_string())
}

/// The CLDR supplemental week data for the territories these tests touch.
fn cldr_week_table() -> WeekDataTable {
    WeekDataTable {
        first_day: vec![
            (TerritoryKey::DefaultSentinel, IsoWeekday::Monday),
            (region("IQ"), IsoWeekday::Saturday),
            (region("IR"), IsoWeekday::Saturday),
        ],
        min_days: vec![
            (TerritoryKey::DefaultSentinel, 1),
            (region("FR"), 4),
            (region("GG"), 4),
        ],
        weekend_start: vec![
            (TerritoryKey::DefaultSentinel, IsoWeekday::Saturday),
            (region("IQ"), IsoWeekday::Friday),
            (region("IR"), IsoWeekday::Friday),
        ],
        weekend_end: vec![
            (TerritoryKey::DefaultSentinel, IsoWeekday::Sunday),
            (region("IQ"), IsoWeekday::Saturday),
            (region("IR"), IsoWeekday::Friday),
        ],
    }
}

#[test]
fn basic_cldr_week_data() {
    let table = cldr_week_table();

    let default_week_data = load_week_data_v1(&table, &Locale::root()).unwrap();
    assert_eq!(1, default_week_data.min_week_days);
    assert_eq!(IsoWeekday::Monday, default_week_data.first_weekday);

    let fr_week_data = load_week_data_v1(&table, &Locale::und_region("FR".to_string())).unwrap();
    assert_eq!(4, fr_week_data.min_week_days);
    assert_eq!(IsoWeekday::Monday, fr_week_data.first_weekday);

    let iq_week_data = load_week_data_v1(&table, &Locale::und_region("IQ".to_string())).unwrap();
    // Only first_weekday is defined for IQ, min_week_days uses the default.
    assert_eq!(default_week_data.min_week_days, iq_week_data.min_week_days);
    assert_eq!(IsoWeekday::Saturday, iq_week_data.first_weekday);

    let gg_week_data = load_week_data_v1(&table, &Locale::und_region("GG".to_string())).unwrap();
    assert_eq!(4, gg_week_data.min_week_days);
    // Only min_week_days is defined for GG, first_weekday uses the default.
    assert_eq!(default_week_data.first_weekday, gg_week_data.first_weekday);
}

#[test]
fn test_basic_cldr_week_data_v2() {
    let table = cldr_week_table();

    let default_week_data = load_week_data_v2(&table, &Locale::root()).unwrap();
    assert_eq!(1, default_week_data.min_week_days);
    assert_eq!(IsoWeekday::Monday, default_week_data.first_weekday);
    assert_eq!(
        WeekdaySet::new(&[IsoWeekday::Saturday, IsoWeekday::Sunday]),
        default_week_data.weekend
    );

    let fr_week_data = load_week_data_v2(&table, &Locale::und_region("FR".to_string())).unwrap();
    assert_eq!(4, fr_week_data.min_week_days);
    assert_eq!(IsoWeekday::Monday, fr_week_data.first_weekday);
    assert_eq!(
        WeekdaySet::new(&[IsoWeekday::Saturday, IsoWeekday::Sunday]),
        fr_week_data.weekend
    );

    let iq_week_data = load_week_data_v2(&table, &Locale::und_region("IQ".to_string())).unwrap();
    // Only first_weekday is defined for IQ, min_week_days uses the default.
    assert_eq!(default_week_data.min_week_days, iq_week_data.min_week_days);
    assert_eq!(IsoWeekday::Saturday, iq_week_data.first_weekday);
    assert_eq!(
        WeekdaySet::new(&[IsoWeekday::Friday, IsoWeekday::Saturday]),
        iq_week_data.weekend
    );

    let gg_week_data = load_week_data_v2(&table, &Locale::und_region("GG".to_string())).unwrap();
    assert_eq!(4, gg_week_data.min_week_days);
    // Only min_week_days is defined for GG, first_weekday uses the default.
    assert_eq!(default_week_data.first_weekday, gg_week_data.first_weekday);
    assert_eq!(
        WeekdaySet::new(&[IsoWeekday::Saturday, IsoWeekday::Sunday]),
        gg_week_data.weekend
    );

    let ir_week_data = load_week_data_v2(&table, &Locale::und_region("IR".to_string())).unwrap();
    assert_eq!(default_week_data.min_week_days, ir_week_data.min_week_days);
    assert_eq!(IsoWeekday::Saturday, ir_week_data.first_weekday);
    assert_eq!(WeekdaySet::new(&[IsoWeekday::Friday]), ir_week_data.weekend);
}

#[test]
fn per_attribute_fallback_is_independent() {
    let table = cldr_week_table();

    // FR: explicit minimal days, first weekday from the default entry.
    let fr = Locale::und_region("FR".to_string());
    assert_eq!(Some(4), resolve_week_attribute(&table.min_days, &fr));
    assert_eq!(
        Some(IsoWeekday::Monday),
        resolve_week_attribute(&table.first_day, &fr)
    );

    // IQ: explicit first weekday, minimal days from the default entry.
    let iq = Locale::und_region("IQ".to_string());
    assert_eq!(Some(1), resolve_week_attribute(&table.min_days, &iq));
    assert_eq!(
        Some(IsoWeekday::Saturday),
        resolve_week_attribute(&table.first_day, &iq)
    );

    // GG: explicit minimal days, first weekday from the default entry.
    let gg = Locale::und_region("GG".to_string());
    assert_eq!(Some(4), resolve_week_attribute(&table.min_days, &gg));
    assert_eq!(
        Some(IsoWeekday::Monday),
        resolve_week_attribute(&table.first_day, &gg)
    );
}

#[test]
fn weekend_set_sizes() {
    let table = cldr_week_table();

    let ir = load_week_data_v2(&table, &Locale::und_region("IR".to_string())).unwrap();
    assert!(ir.weekend.contains(IsoWeekday::Friday));
    assert!(!ir.weekend.contains(IsoWeekday::Saturday));
    assert_eq!(1, ir.weekend.count());

    let root = load_week_data_v2(&table, &Locale::root()).unwrap();
    assert!(root.weekend.contains(IsoWeekday::Saturday));
    assert!(root.weekend.contains(IsoWeekday::Sunday));
    assert!(!root.weekend.contains(IsoWeekday::Monday));
    assert_eq!(2, root.weekend.count());
}

#[test]
fn weekend_set_ignores_order_and_repetition() {
    let a = WeekdaySet::new(&[IsoWeekday::Saturday, IsoWeekday::Sunday]);
    let b = WeekdaySet::new(&[IsoWeekday::Sunday, IsoWeekday::Saturday]);
    assert_eq!(a, b);

    let single = WeekdaySet::new(&[IsoWeekday::Friday, IsoWeekday::Friday]);
    assert_eq!(WeekdaySet::new(&[IsoWeekday::Friday]), single);
    assert_eq!(1, single.count());
}

#[test]
fn missing_default_entry_is_reported_per_attribute() {
    // No default entry for minimal days: FR resolves its explicit entry,
    // but any other locale fails on exactly that attribute.
    let table = WeekDataTable {
        first_day: vec![(TerritoryKey::DefaultSentinel, IsoWeekday::Monday)],
        min_days: vec![(region("FR"), 4)],
        weekend_start: vec![(TerritoryKey::DefaultSentinel, IsoWeekday::Saturday)],
        weekend_end: vec![(TerritoryKey::DefaultSentinel, IsoWeekday::Sunday)],
    };
    let fr = load_week_data_v1(&table, &Locale::und_region("FR".to_string())).unwrap();
    assert_eq!(4, fr.min_week_days);
    assert_eq!(
        Err(DataError::MissingDefaultEntry {
            attribute: WeekAttribute::MinDays
        }),
        load_week_data_v1(&table, &Locale::root())
    );

    // An empty first-day table fails first, on the first-day attribute.
    let empty_first = WeekDataTable {
        first_day: vec![],
        min_days: vec![(TerritoryKey::DefaultSentinel, 1)],
        weekend_start: vec![(TerritoryKey::DefaultSentinel, IsoWeekday::Saturday)],
        weekend_end: vec![(TerritoryKey::DefaultSentinel, IsoWeekday::Sunday)],
    };
    assert_eq!(
        Err(DataError::MissingDefaultEntry {
            attribute: WeekAttribute::FirstDay
        }),
        load_week_data_v1(&empty_first, &Locale::root())
    );

    // A missing weekend-end default is only the V2 path's concern.
    let no_weekend_end = WeekDataTable {
        first_day: vec![(TerritoryKey::DefaultSentinel, IsoWeekday::Monday)],
        min_days: vec![(TerritoryKey::DefaultSentinel, 1)],
        weekend_start: vec![(TerritoryKey::DefaultSentinel, IsoWeekday::Saturday)],
        weekend_end: vec![],
    };
    assert!(load_week_data_v1(&no_weekend_end, &Locale::root()).is_ok());
    assert_eq!(
        Err(DataError::MissingDefaultEntry {
            attribute: WeekAttribute::WeekendEnd
        }),
        load_week_data_v2(&no_weekend_end, &Locale::root())
    );

    // Weekend-start is checked before weekend-end.
    let no_weekend = WeekDataTable {
        first_day: vec![(TerritoryKey::DefaultSentinel, IsoWeekday::Monday)],
        min_days: vec![(TerritoryKey::DefaultSentinel, 1)],
        weekend_start: vec![],
        weekend_end: vec![],
    };
    assert_eq!(
        Err(DataError::MissingDefaultEntry {
            attribute: WeekAttribute::WeekendStart
        }),
        load_week_data_v2(&no_weekend, &Locale::root())
    );
}

#[test]
fn supported_locales_lists_each_territory_once() {
    let table = cldr_week_table();
    let locales = supported_locales(&table);

    // Territories with entries: default, IQ, IR (first day), FR, GG (min days).
    assert_eq!(5, locales.len());
    for locale in &locales {
        assert_eq!("und", locale.language);
    }
    let mut regions: Vec<Option<String>> = locales.iter().map(|l| l.region.clone()).collect();
    regions.sort();
    assert_eq!(
        vec![
            None,
            Some("FR".to_string()),
            Some("GG".to_string()),
            Some("IQ".to_string()),
            Some("IR".to_string()),
        ],
        regions
    );
}
