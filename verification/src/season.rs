//! Seasonal context: maps a calendar date (month and day) to a
//! cultural/seasonal purchasing profile.  Total: every date maps to
//! exactly one profile.

use vstd::prelude::*;
use vstd::string::StringExecFns;

verus! {

/// The seasonal periods recognised by the engine.
#[derive(Clone, Copy, PartialEq, Eq, Structural, Debug)]
pub enum Season {
    ConstitutionDay,
    Christmas,
    Easter,
    Summer,
    BackToSchool,
    StandardPeriod,
}

/// A date-derived purchasing profile.
#[derive(PartialEq, Debug)]
pub struct SeasonalProfile {
    pub season: Season,
    pub season_label: String,
    pub cultural_event: Option<String>,
    pub typical_purchases: Vec<String>,
    pub price_expectations: String,
}

/// The season of a date: May 17 is the national day; December the
/// holiday period; March and April the spring holiday; June through
/// August the summer; September the school start; everything else the
/// standard period.
pub open spec fn season_of(month: u8, day: u8) -> Season {
    if month == 5 && day == 17 {
        Season::ConstitutionDay
    } else if month == 12 {
        Season::Christmas
    } else if 3 <= month <= 4 {
        Season::Easter
    } else if 6 <= month <= 8 {
        Season::Summer
    } else if month == 9 {
        Season::BackToSchool
    } else {
        Season::StandardPeriod
    }
}

/// The display label of a season.
pub open spec fn season_label_of(s: Season) -> Seq<char> {
    match s {
        Season::ConstitutionDay => "17. mai (Constitution Day)"@,
        Season::Christmas => "Jul (Christmas)"@,
        Season::Easter => "Påske (Easter)"@,
        Season::Summer => "Sommer (Summer)"@,
        Season::BackToSchool => "Skolestart (Back to School)"@,
        Season::StandardPeriod => "Standard periode"@,
    }
}

/// The cultural event of a season, when there is one.
pub open spec fn cultural_event_of(s: Season) -> Option<Seq<char>> {
    match s {
        Season::ConstitutionDay => Some("Norwegian National Day"@),
        Season::Christmas => Some("Norwegian Christmas"@),
        Season::Easter => Some("Norwegian Easter"@),
        Season::Summer => Some("Norwegian Summer Vacation"@),
        Season::BackToSchool => Some("Norwegian School Year Start"@),
        Season::StandardPeriod => None,
    }
}

/// The typical purchases of a season.
pub open spec fn purchases_of(s: Season) -> Seq<Seq<char>> {
    match s {
        Season::ConstitutionDay => seq!["Flagg"@, "Korv"@, "Brus"@, "Is"@, "Bunad tilbehør"@],
        Season::Christmas => seq![
            "Ribbe"@,
            "Pinnekjøtt"@,
            "Lutefisk"@,
            "Lefse"@,
            "Krumkake"@,
            "Julepresanger"@,
        ],
        Season::Easter => seq!["Egg"@, "Lam"@, "Kvikk Lunsj"@, "Påskeegg"@, "Sjokolade"@],
        Season::Summer => seq![
            "Is"@,
            "Grillmat"@,
            "Brus"@,
            "Øl"@,
            "Solkrem"@,
            "Camping utstyr"@,
        ],
        Season::BackToSchool => seq![
            "Skolesekk"@,
            "Blyanter"@,
            "Bøker"@,
            "Matboks"@,
            "Klær"@,
        ],
        Season::StandardPeriod => seq!["Dagligvarer"@, "Mat"@, "Drikke"@],
    }
}

/// The price expectation note of a season.
pub open spec fn price_expectations_of(s: Season) -> Seq<char> {
    match s {
        Season::ConstitutionDay => "Premium pricing for patriotic items"@,
        Season::Christmas => "High seasonal pricing for traditional foods"@,
        Season::Easter => "Elevated prices for Easter chocolate and lamb"@,
        Season::Summer => "Peak pricing for summer and vacation items"@,
        Season::BackToSchool => "Back-to-school promotions and bulk pricing"@,
        Season::StandardPeriod => "Regular pricing"@,
    }
}

/// A profile is well formed when every field holds the table value
/// for its season.
pub open spec fn wf_seasonal(p: SeasonalProfile) -> bool {
    &&& p.season_label@ == season_label_of(p.season)
    &&& p.cultural_event.deep_view() == cultural_event_of(p.season)
    &&& p.typical_purchases.deep_view() == purchases_of(p.season)
    &&& p.price_expectations@ == price_expectations_of(p.season)
}

/// Appends a copy of `s` to a purchase list, extending its deep view.
fn push_purchase(v: &mut Vec<String>, s: &str)
    ensures
        final(v).deep_view() == old(v).deep_view().push(s@),
{
    v.push(String::from_str(s));
    proof {
        assert(v.deep_view() =~= old(v).deep_view().push(s@));
    }
}

/// The seasonal profile of the given date.  Total: months outside
/// 1..=12 fall to the standard period like any unlisted month.
pub fn season_for(month: u8, day: u8) -> (p: SeasonalProfile)
    ensures
        p.season == season_of(month, day),
        wf_seasonal(p),
{
    let season: Season = if month == 5 && day == 17 {
        Season::ConstitutionDay
    } else if month == 12 {
        Season::Christmas
    } else if 3 <= month && month <= 4 {
        Season::Easter
    } else if 6 <= month && month <= 8 {
        Season::Summer
    } else if month == 9 {
        Season::BackToSchool
    } else {
        Season::StandardPeriod
    };
    let mut purchases: Vec<String> = Vec::new();
    let cultural_event: Option<String>;
    let season_label: &'static str;
    let price_expectations: &'static str;
    match season {
        Season::ConstitutionDay => {
            season_label = "17. mai (Constitution Day)";
            cultural_event = Some(String::from_str("Norwegian National Day"));
            price_expectations = "Premium pricing for patriotic items";
            push_purchase(&mut purchases, "Flagg");
            push_purchase(&mut purchases, "Korv");
            push_purchase(&mut purchases, "Brus");
            push_purchase(&mut purchases, "Is");
            push_purchase(&mut purchases, "Bunad tilbehør");
        },
        Season::Christmas => {
            season_label = "Jul (Christmas)";
            cultural_event = Some(String::from_str("Norwegian Christmas"));
            price_expectations = "High seasonal pricing for traditional foods";
            push_purchase(&mut purchases, "Ribbe");
            push_purchase(&mut purchases, "Pinnekjøtt");
            push_purchase(&mut purchases, "Lutefisk");
            push_purchase(&mut purchases, "Lefse");
            push_purchase(&mut purchases, "Krumkake");
            push_purchase(&mut purchases, "Julepresanger");
        },
        Season::Easter => {
            season_label = "Påske (Easter)";
            cultural_event = Some(String::from_str("Norwegian Easter"));
            price_expectations = "Elevated prices for Easter chocolate and lamb";
            push_purchase(&mut purchases, "Egg");
            push_purchase(&mut purchases, "Lam");
            push_purchase(&mut purchases, "Kvikk Lunsj");
            push_purchase(&mut purchases, "Påskeegg");
            push_purchase(&mut purchases, "Sjokolade");
        },
        Season::Summer => {
            season_label = "Sommer (Summer)";
            cultural_event = Some(String::from_str("Norwegian Summer Vacation"));
            price_expectations = "Peak pricing for summer and vacation items";
            push_purchase(&mut purchases, "Is");
            push_purchase(&mut purchases, "Grillmat");
            push_purchase(&mut purchases, "Brus");
            push_purchase(&mut purchases, "Øl");
            push_purchase(&mut purchases, "Solkrem");
            push_purchase(&mut purchases, "Camping utstyr");
        },
        Season::BackToSchool => {
            season_label = "Skolestart (Back to School)";
            cultural_event = Some(String::from_str("Norwegian School Year Start"));
            price_expectations = "Back-to-school promotions and bulk pricing";
            push_purchase(&mut purchases, "Skolesekk");
            push_purchase(&mut purchases, "Blyanter");
            push_purchase(&mut purchases, "Bøker");
            push_purchase(&mut purchases, "Matboks");
            push_purchase(&mut purchases, "Klær");
        },
        Season::StandardPeriod => {
            season_label = "Standard periode";
            cultural_event = None;
            price_expectations = "Regular pricing";
            push_purchase(&mut purchases, "Dagligvarer");
            push_purchase(&mut purchases, "Mat");
            push_purchase(&mut purchases, "Drikke");
        },
    }
    proof {
        assert(purchases.deep_view() =~= purchases_of(season));
    }
    SeasonalProfile {
        season,
        season_label: String::from_str(season_label),
        cultural_event,
        typical_purchases: purchases,
        price_expectations: String::from_str(price_expectations),
    }
}

} // verus!
