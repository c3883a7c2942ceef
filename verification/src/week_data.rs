//! Supplemental week metadata, resolved by region-then-default fallback.
//!
//! The source data reader hands this module read-only tables, one per
//! attribute, mapping a territory — a region subtag or the explicit default
//! sentinel — to that attribute's value. Resolution derives the territory
//! from the locale's region subtag, looks the attribute up for it, and falls
//! back to the default sentinel where the territory has no entry. The
//! fallback applies per attribute lookup, not per locale record: one locale
//! may take its minimal week days from an explicit region entry while taking
//! its first weekday from the default. A table lacking even a default entry
//! for a needed attribute is malformed source data and is reported as a
//! data-integrity error naming the attribute.

use crate::error::{DataError, WeekAttribute};
use crate::source::{locale_eq, Locale};
use vstd::prelude::*;

verus! {

/// A day of the week, in ISO-8601 order.
#[derive(Clone, Copy, Debug, PartialEq, Eq, Structural)]
pub enum IsoWeekday {
    Monday,
    Tuesday,
    Wednesday,
    Thursday,
    Friday,
    Saturday,
    Sunday,
}

/// A set of weekdays, one membership flag per day.
///
/// The value is its membership alone, so two sets built from the same days
/// in different orders compare equal.
#[derive(Clone, Copy, Debug, PartialEq, Eq, Structural)]
pub struct WeekdaySet {
    pub monday: bool,
    pub tuesday: bool,
    pub wednesday: bool,
    pub thursday: bool,
    pub friday: bool,
    pub saturday: bool,
    pub sunday: bool,
}

/// The weekday set whose members are exactly the days the sequence holds.
pub open spec fn spec_weekday_set_of(days: Seq<IsoWeekday>) -> WeekdaySet {
    WeekdaySet {
        monday: days.contains(IsoWeekday::Monday),
        tuesday: days.contains(IsoWeekday::Tuesday),
        wednesday: days.contains(IsoWeekday::Wednesday),
        thursday: days.contains(IsoWeekday::Thursday),
        friday: days.contains(IsoWeekday::Friday),
        saturday: days.contains(IsoWeekday::Saturday),
        sunday: days.contains(IsoWeekday::Sunday),
    }
}

impl WeekdaySet {
    /// Whether `day` is a member.
    pub open spec fn spec_contains(self, day: IsoWeekday) -> bool {
        match day {
            IsoWeekday::Monday => self.monday,
            IsoWeekday::Tuesday => self.tuesday,
            IsoWeekday::Wednesday => self.wednesday,
            IsoWeekday::Thursday => self.thursday,
            IsoWeekday::Friday => self.friday,
            IsoWeekday::Saturday => self.saturday,
            IsoWeekday::Sunday => self.sunday,
        }
    }

    /// How many days are members.
    pub open spec fn spec_count(self) -> int {
        (if self.monday {
            1int
        } else {
            0int
        }) + (if self.tuesday {
            1int
        } else {
            0int
        }) + (if self.wednesday {
            1int
        } else {
            0int
        }) + (if self.thursday {
            1int
        } else {
            0int
        }) + (if self.friday {
            1int
        } else {
            0int
        }) + (if self.saturday {
            1int
        } else {
            0int
        }) + (if self.sunday {
            1int
        } else {
            0int
        })
    }

    /// The set of the given days, in any order, repetitions ignored.
    pub fn new(days: &[IsoWeekday]) -> (r: WeekdaySet)
        ensures
            r == spec_weekday_set_of(days@),
    {
        let mut r = WeekdaySet {
            monday: false,
            tuesday: false,
            wednesday: false,
            thursday: false,
            friday: false,
            saturday: false,
            sunday: false,
        };
        proof {
            assert(days@.subrange(0, 0).len() == 0);
        }
        let n = days.len();
        let mut i: usize = 0;
        while i < n
            invariant
                n == days@.len(),
                i <= n,
                r == spec_weekday_set_of(days@.subrange(0, i as int)),
            decreases n - i,
        {
            let ghost pre = days@.subrange(0, i as int);
            let ghost post = days@.subrange(0, i + 1 as int);
            let day = days[i];
            match day {
                IsoWeekday::Monday => r.monday = true,
                IsoWeekday::Tuesday => r.tuesday = true,
                IsoWeekday::Wednesday => r.wednesday = true,
                IsoWeekday::Thursday => r.thursday = true,
                IsoWeekday::Friday => r.friday = true,
                IsoWeekday::Saturday => r.saturday = true,
                IsoWeekday::Sunday => r.sunday = true,
            }
            proof {
                assert(post =~= pre.push(days@[i as int]));
                let ghost cur = days@[i as int];
                assert forall|d: IsoWeekday| post.contains(d) <==> pre.contains(d) || d == cur by {
                    if pre.contains(d) {
                        let w = choose|k: int| 0 <= k < pre.len() && pre[k] == d;
                        assert(post[w] == d);
                    }
                    if d == cur {
                        assert(post[post.len() - 1] == d);
                    }
                    if post.contains(d) {
                        let w = choose|k: int| 0 <= k < post.len() && post[k] == d;
                        if w < pre.len() {
                            assert(pre[w] == d);
                        }
                    }
                }
            }
            i += 1;
        }
        proof {
            assert(days@.subrange(0, n as int) =~= days@);
        }
        r
    }

    /// Whether `day` is in the set.
    pub fn contains(&self, day: IsoWeekday) -> (r: bool)
        ensures
            r == self.spec_contains(day),
    {
        match day {
            IsoWeekday::Monday => self.monday,
            IsoWeekday::Tuesday => self.tuesday,
            IsoWeekday::Wednesday => self.wednesday,
            IsoWeekday::Thursday => self.thursday,
            IsoWeekday::Friday => self.friday,
            IsoWeekday::Saturday => self.saturday,
            IsoWeekday::Sunday => self.sunday,
        }
    }

    /// The number of days in the set.
    pub fn count(&self) -> (r: u8)
        ensures
            r == self.spec_count(),
    {
        let mut c: u8 = 0;
        if self.monday {
            c += 1;
        }
        if self.tuesday {
            c += 1;
        }
        if self.wednesday {
            c += 1;
        }
        if self.thursday {
            c += 1;
        }
        if self.friday {
            c += 1;
        }
        if self.saturday {
            c += 1;
        }
        if self.sunday {
            c += 1;
        }
        c
    }
}

/// Two sets with the same members are the same set, whatever order their
/// members were inserted in.
pub proof fn lemma_weekday_set_extensional(a: WeekdaySet, b: WeekdaySet)
    requires
        forall|d: IsoWeekday| a.spec_contains(d) == b.spec_contains(d),
    ensures
        a == b,
{
    assert(a.spec_contains(IsoWeekday::Monday) == b.spec_contains(IsoWeekday::Monday));
    assert(a.spec_contains(IsoWeekday::Tuesday) == b.spec_contains(IsoWeekday::Tuesday));
    assert(a.spec_contains(IsoWeekday::Wednesday) == b.spec_contains(IsoWeekday::Wednesday));
    assert(a.spec_contains(IsoWeekday::Thursday) == b.spec_contains(IsoWeekday::Thursday));
    assert(a.spec_contains(IsoWeekday::Friday) == b.spec_contains(IsoWeekday::Friday));
    assert(a.spec_contains(IsoWeekday::Saturday) == b.spec_contains(IsoWeekday::Saturday));
    assert(a.spec_contains(IsoWeekday::Sunday) == b.spec_contains(IsoWeekday::Sunday));
}

/// A weekend set — the resolved weekend-start and weekend-end days combined
/// — holds those days and nothing else: exactly one member where they
/// coincide, exactly two otherwise.
pub proof fn lemma_weekend_set_size(s: WeekdaySet, start: IsoWeekday, end: IsoWeekday)
    requires
        forall|d: IsoWeekday| s.spec_contains(d) <==> (d == start || d == end),
    ensures
        start == end ==> s.spec_count() == 1,
        start != end ==> s.spec_count() == 2,
{
    assert(s.spec_contains(IsoWeekday::Monday) <==> (IsoWeekday::Monday == start
        || IsoWeekday::Monday == end));
    assert(s.spec_contains(IsoWeekday::Tuesday) <==> (IsoWeekday::Tuesday == start
        || IsoWeekday::Tuesday == end));
    assert(s.spec_contains(IsoWeekday::Wednesday) <==> (IsoWeekday::Wednesday == start
        || IsoWeekday::Wednesday == end));
    assert(s.spec_contains(IsoWeekday::Thursday) <==> (IsoWeekday::Thursday == start
        || IsoWeekday::Thursday == end));
    assert(s.spec_contains(IsoWeekday::Friday) <==> (IsoWeekday::Friday == start
        || IsoWeekday::Friday == end));
    assert(s.spec_contains(IsoWeekday::Saturday) <==> (IsoWeekday::Saturday == start
        || IsoWeekday::Saturday == end));
    assert(s.spec_contains(IsoWeekday::Sunday) <==> (IsoWeekday::Sunday == start
        || IsoWeekday::Sunday == end));
}

/// The set built from a weekend-start and weekend-end day — the `weekend`
/// field of a loaded record — holds exactly those two days.
pub proof fn lemma_weekday_set_of_pair(start: IsoWeekday, end: IsoWeekday)
    ensures
        forall|d: IsoWeekday|
            spec_weekday_set_of(seq![start, end]).spec_contains(d) <==> (d == start || d == end),
{
    let days = seq![start, end];
    assert forall|d: IsoWeekday| days.contains(d) <==> (d == start || d == end) by {
        if d == start {
            assert(days[0] == d);
        }
        if d == end {
            assert(days[1] == d);
        }
        if days.contains(d) {
            let w = choose|k: int| 0 <= k < days.len() && days[k] == d;
            assert(w == 0 || w == 1);
        }
    }
}

/// A territory: a region subtag, or the explicit default sentinel used for
/// entries that apply wherever no region-specific entry exists.
#[derive(Debug)]
pub enum TerritoryKey {
    DefaultSentinel,
    Region(String),
}

/// The mathematical value of a [`TerritoryKey`].
pub enum TerritoryKeyView {
    DefaultSentinel,
    Region(Seq<char>),
}

impl View for TerritoryKey {
    type V = TerritoryKeyView;

    open spec fn view(&self) -> TerritoryKeyView {
        match self {
            TerritoryKey::DefaultSentinel => TerritoryKeyView::DefaultSentinel,
            TerritoryKey::Region(r) => TerritoryKeyView::Region(r@),
        }
    }
}

/// Whether two territory keys are the same value.
pub fn territory_eq(a: &TerritoryKey, b: &TerritoryKey) -> (r: bool)
    ensures
        r == (a@ == b@),
{
    match (a, b) {
        (TerritoryKey::DefaultSentinel, TerritoryKey::DefaultSentinel) => true,
        (TerritoryKey::Region(x), TerritoryKey::Region(y)) => *x == *y,
        _ => false,
    }
}

/// The territory a locale's region subtag names: the default sentinel where
/// the locale has no region.
pub open spec fn spec_territory_of_region(region: Option<Seq<char>>) -> TerritoryKeyView {
    match region {
        Some(r) => TerritoryKeyView::Region(r),
        None => TerritoryKeyView::DefaultSentinel,
    }
}

/// The value an attribute table holds for a territory: that of the first
/// entry keyed by it.
pub open spec fn spec_lookup<V>(entries: Seq<(TerritoryKey, V)>, territory: TerritoryKeyView) -> Option<
    V,
>
    decreases entries.len(),
{
    if entries.len() == 0 {
        None
    } else if entries[0].0@ == territory {
        Some(entries[0].1)
    } else {
        spec_lookup(entries.drop_first(), territory)
    }
}

/// One attribute's resolution for a locale: the entry for the locale's
/// territory if there is one, else the default-territory entry, else
/// nothing.
pub open spec fn spec_resolve<V>(
    entries: Seq<(TerritoryKey, V)>,
    region: Option<Seq<char>>,
) -> Option<V> {
    match spec_lookup(entries, spec_territory_of_region(region)) {
        Some(v) => Some(v),
        None => spec_lookup(entries, TerritoryKeyView::DefaultSentinel),
    }
}

/// Looks a territory up in one attribute table.
fn lookup<V: Copy>(entries: &Vec<(TerritoryKey, V)>, territory: &TerritoryKey) -> (r: Option<V>)
    ensures
        r == spec_lookup(entries@, territory@),
{
    let n = entries.len();
    let mut i: usize = 0;
    proof {
        assert(entries@.skip(0) =~= entries@);
    }
    while i < n
        invariant
            n == entries@.len(),
            i <= n,
            spec_lookup(entries@, territory@) == spec_lookup(entries@.skip(i as int), territory@),
        decreases n - i,
    {
        proof {
            assert(entries@.skip(i as int)[0] == entries@[i as int]);
        }
        if territory_eq(&entries[i].0, territory) {
            return Some(entries[i].1);
        }
        proof {
            assert(entries@.skip(i as int).drop_first() =~= entries@.skip(i + 1 as int));
        }
        i += 1;
    }
    proof {
        assert(entries@.skip(n as int).len() == 0);
    }
    None
}

/// Resolves one supplemental attribute for a locale, with region-then-default
/// fallback.
pub fn resolve_week_attribute<V: Copy>(entries: &Vec<(TerritoryKey, V)>, locale: &Locale) -> (r:
    Option<V>)
    ensures
        r == spec_resolve(entries@, locale@.region),
{
    let territory = match &locale.region {
        Some(region) => TerritoryKey::Region(region.clone()),
        None => TerritoryKey::DefaultSentinel,
    };
    match lookup(entries, &territory) {
        Some(v) => Some(v),
        None => lookup(entries, &TerritoryKey::DefaultSentinel),
    }
}

/// The region a territory entry speaks for: none for the default sentinel,
/// whose entry serves the root locale.
pub open spec fn spec_region_of_territory(territory: TerritoryKeyView) -> Option<Seq<char>> {
    match territory {
        TerritoryKeyView::DefaultSentinel => None,
        TerritoryKeyView::Region(r) => Some(r),
    }
}

/// A territory that keys some entry of a table is found by lookup.
proof fn lemma_lookup_finds<V>(entries: Seq<(TerritoryKey, V)>, j: int)
    requires
        0 <= j < entries.len(),
    ensures
        spec_lookup(entries, entries[j].0@) is Some,
    decreases entries.len(),
{
    if entries[0].0@ == entries[j].0@ {
    } else {
        assert(entries.drop_first()[j - 1] == entries[j]);
        lemma_lookup_finds(entries.drop_first(), j - 1);
    }
}

/// Whether some listed locale already is this value.
fn contains_locale(list: &Vec<Locale>, locale: &Locale) -> (r: bool)
    ensures
        r == exists|i: int| 0 <= i < list@.len() && list@[i]@ == locale@,
{
    let n = list.len();
    let mut i: usize = 0;
    while i < n
        invariant
            n == list@.len(),
            i <= n,
            forall|k: int| 0 <= k < i ==> list@[k]@ != locale@,
        decreases n - i,
    {
        if locale_eq(&list[i], locale) {
            return true;
        }
        i += 1;
    }
    false
}

/// The parsed supplemental week-data tables, one per attribute, as the
/// source data reader supplies them: read-only associative lookups from
/// territory to value.
#[derive(Debug)]
pub struct WeekDataTable {
    /// First day of the week, per territory.
    pub first_day: Vec<(TerritoryKey, IsoWeekday)>,
    /// Minimal days in the first week of a month or year, per territory.
    pub min_days: Vec<(TerritoryKey, u8)>,
    /// First day of the weekend, per territory.
    pub weekend_start: Vec<(TerritoryKey, IsoWeekday)>,
    /// Last day of the weekend, per territory.
    pub weekend_end: Vec<(TerritoryKey, IsoWeekday)>,
}

/// The week conventions of a locale: first weekday and minimal week days.
#[derive(Clone, Copy, Debug, PartialEq, Eq, Structural)]
pub struct WeekDataV1 {
    /// The first day of a week.
    pub first_weekday: IsoWeekday,
    /// The minimal number of days a week must have in a month or year for
    /// it to count as the first week.
    pub min_week_days: u8,
}

/// The week conventions of a locale, with the weekend set besides.
#[derive(Clone, Copy, Debug, PartialEq, Eq, Structural)]
pub struct WeekDataV2 {
    /// The first day of a week.
    pub first_weekday: IsoWeekday,
    /// The minimal number of days of the first week, as in [`WeekDataV1`].
    pub min_week_days: u8,
    /// The days that make up the weekend.
    pub weekend: WeekdaySet,
}

/// Loads the week conventions of a locale from the supplemental tables,
/// resolving each attribute independently with region-then-default
/// fallback.
pub fn load_week_data_v1(table: &WeekDataTable, locale: &Locale) -> (r: Result<
    WeekDataV1,
    DataError,
>)
    ensures
        ({
            let first = spec_resolve(table.first_day@, locale@.region);
            let min = spec_resolve(table.min_days@, locale@.region);
            match (first, min) {
                (Some(f), Some(m)) => r == Ok::<WeekDataV1, DataError>(
                    WeekDataV1 { first_weekday: f, min_week_days: m },
                ),
                (None, _) => r == Err::<WeekDataV1, DataError>(
                    DataError::MissingDefaultEntry { attribute: WeekAttribute::FirstDay },
                ),
                (Some(_), None) => r == Err::<WeekDataV1, DataError>(
                    DataError::MissingDefaultEntry { attribute: WeekAttribute::MinDays },
                ),
            }
        }),
{
    let first_weekday = match resolve_week_attribute(&table.first_day, locale) {
        Some(f) => f,
        None => {
            return Err(DataError::MissingDefaultEntry { attribute: WeekAttribute::FirstDay });
        },
    };
    let min_week_days = match resolve_week_attribute(&table.min_days, locale) {
        Some(m) => m,
        None => {
            return Err(DataError::MissingDefaultEntry { attribute: WeekAttribute::MinDays });
        },
    };
    Ok(WeekDataV1 { first_weekday, min_week_days })
}

/// Loads the week conventions of a locale with the weekend set: the four
/// attributes are resolved independently, each with region-then-default
/// fallback, and the weekend set combines the resolved weekend-start and
/// weekend-end days.
pub fn load_week_data_v2(table: &WeekDataTable, locale: &Locale) -> (r: Result<
    WeekDataV2,
    DataError,
>)
    ensures
        ({
            let first = spec_resolve(table.first_day@, locale@.region);
            let min = spec_resolve(table.min_days@, locale@.region);
            let start = spec_resolve(table.weekend_start@, locale@.region);
            let end = spec_resolve(table.weekend_end@, locale@.region);
            match (first, min, start, end) {
                (Some(f), Some(m), Some(s), Some(e)) => r == Ok::<WeekDataV2, DataError>(
                    WeekDataV2 {
                        first_weekday: f,
                        min_week_days: m,
                        weekend: spec_weekday_set_of(seq![s, e]),
                    },
                ),
                (None, _, _, _) => r == Err::<WeekDataV2, DataError>(
                    DataError::MissingDefaultEntry { attribute: WeekAttribute::FirstDay },
                ),
                (Some(_), None, _, _) => r == Err::<WeekDataV2, DataError>(
                    DataError::MissingDefaultEntry { attribute: WeekAttribute::MinDays },
                ),
                (Some(_), Some(_), None, _) => r == Err::<WeekDataV2, DataError>(
                    DataError::MissingDefaultEntry { attribute: WeekAttribute::WeekendStart },
                ),
                (Some(_), Some(_), Some(_), None) => r == Err::<WeekDataV2, DataError>(
                    DataError::MissingDefaultEntry { attribute: WeekAttribute::WeekendEnd },
                ),
            }
        }),
{
    let first_weekday = match resolve_week_attribute(&table.first_day, locale) {
        Some(f) => f,
        None => {
            return Err(DataError::MissingDefaultEntry { attribute: WeekAttribute::FirstDay });
        },
    };
    let min_week_days = match resolve_week_attribute(&table.min_days, locale) {
        Some(m) => m,
        None => {
            return Err(DataError::MissingDefaultEntry { attribute: WeekAttribute::MinDays });
        },
    };
    let weekend_start = match resolve_week_attribute(&table.weekend_start, locale) {
        Some(s) => s,
        None => {
            return Err(DataError::MissingDefaultEntry { attribute: WeekAttribute::WeekendStart });
        },
    };
    let weekend_end = match resolve_week_attribute(&table.weekend_end, locale) {
        Some(e) => e,
        None => {
            return Err(DataError::MissingDefaultEntry { attribute: WeekAttribute::WeekendEnd });
        },
    };
    let weekend = WeekdaySet::new(&[weekend_start, weekend_end]);
    proof {
        assert([weekend_start, weekend_end]@ =~= seq![weekend_start, weekend_end]);
    }
    Ok(WeekDataV2 { first_weekday, min_week_days, weekend })
}

/// Lists the territories of one attribute table: for each entry whose
/// territory no listed locale names yet, appends the `und` locale of that
/// territory.
fn collect_territories<V: Copy>(entries: &Vec<(TerritoryKey, V)>, out: &mut Vec<Locale>)
    requires
        forall|i: int| 0 <= i < old(out)@.len() ==> (#[trigger] old(out)@[i]@).language == "und"@,
        forall|i1: int, i2: int|
            0 <= i1 < i2 < old(out)@.len() ==> old(out)@[i1]@.region != old(out)@[i2]@.region,
    ensures
        old(out)@.len() <= final(out)@.len(),
        forall|i: int| 0 <= i < old(out)@.len() ==> final(out)@[i] == old(out)@[i],
        forall|i: int| 0 <= i < final(out)@.len() ==> (#[trigger] final(out)@[i]@).language
            == "und"@,
        forall|i1: int, i2: int|
            0 <= i1 < i2 < final(out)@.len() ==> final(out)@[i1]@.region != final(out)@[i2]@.region,
        forall|i: int|
            old(out)@.len() <= i < final(out)@.len() ==> spec_lookup(
                entries@,
                spec_territory_of_region((#[trigger] final(out)@[i]@).region),
            ) is Some,
        forall|j: int|
            0 <= j < entries@.len() ==> exists|i: int|
                0 <= i < final(out)@.len() && final(out)@[i]@.region == spec_region_of_territory(
                    (#[trigger] entries@[j]).0@,
                ),
{
    let n = entries.len();
    let mut j: usize = 0;
    while j < n
        invariant
            n == entries@.len(),
            j <= n,
            old(out)@.len() <= out@.len(),
            forall|i: int| 0 <= i < old(out)@.len() ==> out@[i] == old(out)@[i],
            forall|i: int| 0 <= i < out@.len() ==> (#[trigger] out@[i]@).language == "und"@,
            forall|i1: int, i2: int|
                0 <= i1 < i2 < out@.len() ==> out@[i1]@.region != out@[i2]@.region,
            forall|i: int|
                old(out)@.len() <= i < out@.len() ==> spec_lookup(
                    entries@,
                    spec_territory_of_region((#[trigger] out@[i]@).region),
                ) is Some,
            forall|k: int|
                0 <= k < j ==> exists|i: int|
                    0 <= i < out@.len() && out@[i]@.region == spec_region_of_territory(
                        (#[trigger] entries@[k]).0@,
                    ),
        decreases n - j,
    {
        let locale = match &entries[j].0 {
            TerritoryKey::DefaultSentinel => Locale::root(),
            TerritoryKey::Region(region) => Locale::und_region(region.clone()),
        };
        proof {
            assert(locale@.region == spec_region_of_territory(entries@[j as int].0@));
            assert(spec_territory_of_region(locale@.region) == entries@[j as int].0@);
        }
        let ghost pre = out@;
        let already = contains_locale(out, &locale);
        if !already {
            proof {
                lemma_lookup_finds(entries@, j as int);
            }
            out.push(locale);
            proof {
                let ghost last = out@.len() - 1;
                assert(out@[last] == locale);
                // A fresh territory: its locale's view differs from every
                // listed one, and with all languages `und` that means a
                // fresh region.
                assert forall|i: int| 0 <= i < pre.len() implies pre[i]@.region
                    != locale@.region by {
                    if pre[i]@.region == locale@.region {
                        assert(pre[i]@.language == "und"@);
                        assert(pre[i]@ == locale@);
                    }
                }
                assert forall|k: int| 0 <= k < j + 1 implies exists|i: int|
                    0 <= i < out@.len() && out@[i]@.region == spec_region_of_territory(
                        (#[trigger] entries@[k]).0@,
                    ) by {
                    if k < j {
                        let w = choose|i: int|
                            0 <= i < pre.len() && pre[i]@.region == spec_region_of_territory(
                                entries@[k].0@,
                            );
                        assert(out@[w] == pre[w]);
                        assert(out@[w]@.region == spec_region_of_territory(entries@[k].0@));
                    } else {
                        assert(out@[last]@.region == spec_region_of_territory(entries@[k].0@));
                    }
                }
            }
        } else {
            proof {
                let w = choose|i: int| 0 <= i < pre.len() && pre[i]@ == locale@;
                assert(out@[w]@.region == spec_region_of_territory(entries@[j as int].0@));
            }
        }
        j += 1;
    }
}

/// The locales the supplemental tables can serve: one `und` locale per
/// territory that has a minimal-week-days or a first-weekday entry — the
/// default sentinel giving the root locale — with each territory listed
/// once.
pub fn supported_locales(table: &WeekDataTable) -> (r: Vec<Locale>)
    ensures
        forall|i: int| 0 <= i < r@.len() ==> (#[trigger] r@[i]@).language == "und"@,
        forall|i: int|
            0 <= i < r@.len() ==> spec_lookup(
                table.min_days@,
                spec_territory_of_region((#[trigger] r@[i]@).region),
            ) is Some || spec_lookup(
                table.first_day@,
                spec_territory_of_region(r@[i]@.region),
            ) is Some,
        forall|j: int|
            0 <= j < table.min_days@.len() ==> exists|i: int|
                0 <= i < r@.len() && r@[i]@.region == spec_region_of_territory(
                    (#[trigger] table.min_days@[j]).0@,
                ),
        forall|j: int|
            0 <= j < table.first_day@.len() ==> exists|i: int|
                0 <= i < r@.len() && r@[i]@.region == spec_region_of_territory(
                    (#[trigger] table.first_day@[j]).0@,
                ),
        forall|i1: int, i2: int| 0 <= i1 < i2 < r@.len() ==> r@[i1]@.region != r@[i2]@.region,
{
    let mut out: Vec<Locale> = Vec::new();
    collect_territories(&table.min_days, &mut out);
    let ghost mid = out@;
    collect_territories(&table.first_day, &mut out);
    proof {
        assert forall|j: int| 0 <= j < table.min_days@.len() implies exists|i: int|
            0 <= i < out@.len() && out@[i]@.region == spec_region_of_territory(
                (#[trigger] table.min_days@[j]).0@,
            ) by {
            let w = choose|i: int|
                0 <= i < mid.len() && mid[i]@.region == spec_region_of_territory(
                    table.min_days@[j].0@,
                );
            assert(out@[w] == mid[w]);
            assert(out@[w]@.region == spec_region_of_territory(table.min_days@[j].0@));
        }
        assert forall|i: int|
            0 <= i < out@.len() implies spec_lookup(
            table.min_days@,
            spec_territory_of_region((#[trigger] out@[i]@).region),
        ) is Some || spec_lookup(
            table.first_day@,
            spec_territory_of_region(out@[i]@.region),
        ) is Some by {
            if i < mid.len() {
                assert(out@[i] == mid[i]);
            }
        }
    }
    out
}

} // verus!
