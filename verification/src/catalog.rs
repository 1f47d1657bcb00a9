//! Static merchant reference data: the catalog of known Norwegian
//! merchants with their category, typical VAT rate, seasonal products,
//! organisation-number pattern and base confidence.

use vstd::prelude::*;
use vstd::string::StringExecFns;

verus! {

/// Identity of a merchant profile.  `Unknown` is the fallback profile
/// used when detection finds no catalog merchant; the nine other keys
/// form the catalog.
#[derive(Clone, Copy, PartialEq, Eq, Structural, Debug)]
pub enum MerchantKey {
    Rema,
    Ica,
    Coop,
    Kiwi,
    CircleK,
    Shell,
    Tine,
    Posten,
    Vinmonopolet,
    Unknown,
}

/// Product category of a merchant.
#[derive(Clone, Copy, PartialEq, Eq, Structural, Debug)]
pub enum Category {
    GroceryStore,
    DiscountGrocery,
    GasStation,
    DairyProducts,
    PostalService,
    AlcoholMonopoly,
    Unidentified,
}

/// A merchant profile: immutable reference data plus the key that
/// identifies it.  A well-formed profile (`wf_profile`) has every
/// field equal to the catalog value for its key.
#[derive(PartialEq, Debug)]
pub struct MerchantProfile {
    pub key: MerchantKey,
    pub name: String,
    pub chain: String,
    pub category: Category,
    /// Typical VAT rate, in integer percent.
    pub typical_vat_rate: u8,
    pub seasonal_products: Vec<String>,
    /// Exact-match organisation-number token, when known.
    pub org_pattern: Option<String>,
    /// Base confidence, in thousandths (`950` stands for 0.95).
    pub base_confidence: u32,
}

/// The catalog key text scanned for in uppercased receipt text.
pub open spec fn key_chars(k: MerchantKey) -> Seq<char> {
    match k {
        MerchantKey::Rema => "REMA"@,
        MerchantKey::Ica => "ICA"@,
        MerchantKey::Coop => "COOP"@,
        MerchantKey::Kiwi => "KIWI"@,
        MerchantKey::CircleK => "CIRCLE K"@,
        MerchantKey::Shell => "SHELL"@,
        MerchantKey::Tine => "TINE"@,
        MerchantKey::Posten => "POSTEN"@,
        MerchantKey::Vinmonopolet => "VINMONOPOLET"@,
        MerchantKey::Unknown => ""@,
    }
}

/// Display name of the merchant.
pub open spec fn name_of(k: MerchantKey) -> Seq<char> {
    match k {
        MerchantKey::Rema => "REMA 1000"@,
        MerchantKey::Ica => "ICA Supermarket"@,
        MerchantKey::Coop => "Coop"@,
        MerchantKey::Kiwi => "KIWI"@,
        MerchantKey::CircleK => "Circle K"@,
        MerchantKey::Shell => "Shell"@,
        MerchantKey::Tine => "Tine"@,
        MerchantKey::Posten => "Posten Norge"@,
        MerchantKey::Vinmonopolet => "Vinmonopolet"@,
        MerchantKey::Unknown => "Ukjent norsk forhandler"@,
    }
}

/// Chain name of the merchant.
pub open spec fn chain_of(k: MerchantKey) -> Seq<char> {
    match k {
        MerchantKey::Rema => "REMA 1000"@,
        MerchantKey::Ica => "ICA"@,
        MerchantKey::Coop => "COOP"@,
        MerchantKey::Kiwi => "KIWI"@,
        MerchantKey::CircleK => "Circle K"@,
        MerchantKey::Shell => "Shell"@,
        MerchantKey::Tine => "Tine"@,
        MerchantKey::Posten => "Posten"@,
        MerchantKey::Vinmonopolet => "Vinmonopolet"@,
        MerchantKey::Unknown => "Generisk"@,
    }
}

/// Category of the merchant.
pub open spec fn category_of(k: MerchantKey) -> Category {
    match k {
        MerchantKey::Rema => Category::GroceryStore,
        MerchantKey::Ica => Category::GroceryStore,
        MerchantKey::Coop => Category::GroceryStore,
        MerchantKey::Kiwi => Category::DiscountGrocery,
        MerchantKey::CircleK => Category::GasStation,
        MerchantKey::Shell => Category::GasStation,
        MerchantKey::Tine => Category::DairyProducts,
        MerchantKey::Posten => Category::PostalService,
        MerchantKey::Vinmonopolet => Category::AlcoholMonopoly,
        MerchantKey::Unknown => Category::Unidentified,
    }
}

/// Typical VAT rate of the merchant, in integer percent.
pub open spec fn typical_rate_of(k: MerchantKey) -> u8 {
    match category_of(k) {
        Category::GroceryStore => 15,
        Category::DiscountGrocery => 15,
        Category::DairyProducts => 15,
        _ => 25,
    }
}

/// Seasonal products listed for the merchant.
pub open spec fn products_of(k: MerchantKey) -> Seq<Seq<char>> {
    match k {
        MerchantKey::Rema => seq![
            "Ribbe"@,
            "Pinnekjøtt"@,
            "Lutefisk"@,
            "Egg"@,
            "Lam"@,
            "Is"@,
            "Grillmat"@,
        ],
        MerchantKey::Ica => seq!["Kvikk Lunsj"@, "Egg"@, "Melk"@, "Brød"@, "Ost"@],
        MerchantKey::Coop => seq!["Ø-merket"@, "Miljømerket"@, "Lokalt"@, "Nærprodusert"@],
        MerchantKey::Kiwi => seq!["Lavpris"@, "Tilbud"@, "2 for 1"@],
        MerchantKey::CircleK => seq!["Bensin"@, "Diesel"@, "Kaffe"@, "Pølse"@, "Brus"@],
        MerchantKey::Shell => seq!["Drivstoff"@, "Bil"@, "Kaffe"@],
        MerchantKey::Tine => seq!["Melk"@, "Yoghurt"@, "Ost"@, "Smør"@, "Fløte"@],
        MerchantKey::Posten => seq!["Porto"@, "Pakke"@, "Brev"@],
        MerchantKey::Vinmonopolet => seq!["Vin"@, "Øl"@, "Brennevin"@, "Champagne"@, "Akevitt"@],
        MerchantKey::Unknown => Seq::empty(),
    }
}

/// Organisation-number pattern of the merchant, when known.
pub open spec fn org_pattern_of(k: MerchantKey) -> Option<Seq<char>> {
    match k {
        MerchantKey::Rema => Some("999208372"@),
        MerchantKey::Posten => Some("984661185"@),
        MerchantKey::Vinmonopolet => Some("971425831"@),
        _ => None,
    }
}

/// Base confidence of the merchant, in thousandths.
pub open spec fn base_confidence_of(k: MerchantKey) -> u32 {
    match k {
        MerchantKey::Rema => 950,
        MerchantKey::Ica => 920,
        MerchantKey::Coop => 940,
        MerchantKey::Kiwi => 930,
        MerchantKey::CircleK => 880,
        MerchantKey::Shell => 870,
        MerchantKey::Tine => 980,
        MerchantKey::Posten => 990,
        MerchantKey::Vinmonopolet => 990,
        MerchantKey::Unknown => 500,
    }
}

/// A profile is well formed when every field holds the catalog value
/// for its key.
pub open spec fn wf_profile(p: MerchantProfile) -> bool {
    &&& p.name@ == name_of(p.key)
    &&& p.chain@ == chain_of(p.key)
    &&& p.category == category_of(p.key)
    &&& p.typical_vat_rate == typical_rate_of(p.key)
    &&& p.seasonal_products.deep_view() == products_of(p.key)
    &&& p.org_pattern.deep_view() == org_pattern_of(p.key)
    &&& p.base_confidence == base_confidence_of(p.key)
}

/// Catalog keys in insertion order, used for organisation-number
/// pattern scans and full iteration.
pub open spec fn catalog_order() -> Seq<MerchantKey> {
    seq![
        MerchantKey::Rema,
        MerchantKey::Ica,
        MerchantKey::Coop,
        MerchantKey::Kiwi,
        MerchantKey::CircleK,
        MerchantKey::Shell,
        MerchantKey::Tine,
        MerchantKey::Posten,
        MerchantKey::Vinmonopolet,
    ]
}

/// Catalog keys in detection priority order: longest key text first,
/// ties resolved lexicographically.
pub open spec fn detection_priority() -> Seq<MerchantKey> {
    seq![
        MerchantKey::Vinmonopolet,
        MerchantKey::CircleK,
        MerchantKey::Posten,
        MerchantKey::Shell,
        MerchantKey::Coop,
        MerchantKey::Kiwi,
        MerchantKey::Rema,
        MerchantKey::Tine,
        MerchantKey::Ica,
    ]
}

/// The catalog key text, as a string slice.
pub fn key_text(k: MerchantKey) -> (r: &'static str)
    ensures
        r@ == key_chars(k),
{
    match k {
        MerchantKey::Rema => "REMA",
        MerchantKey::Ica => "ICA",
        MerchantKey::Coop => "COOP",
        MerchantKey::Kiwi => "KIWI",
        MerchantKey::CircleK => "CIRCLE K",
        MerchantKey::Shell => "SHELL",
        MerchantKey::Tine => "TINE",
        MerchantKey::Posten => "POSTEN",
        MerchantKey::Vinmonopolet => "VINMONOPOLET",
        MerchantKey::Unknown => "",
    }
}

/// The catalog keys in insertion order.
pub fn all_keys() -> (r: Vec<MerchantKey>)
    ensures
        r@ == catalog_order(),
{
    let mut r: Vec<MerchantKey> = Vec::new();
    r.push(MerchantKey::Rema);
    r.push(MerchantKey::Ica);
    r.push(MerchantKey::Coop);
    r.push(MerchantKey::Kiwi);
    r.push(MerchantKey::CircleK);
    r.push(MerchantKey::Shell);
    r.push(MerchantKey::Tine);
    r.push(MerchantKey::Posten);
    r.push(MerchantKey::Vinmonopolet);
    proof {
        assert(r@ =~= catalog_order());
    }
    r
}

/// The catalog keys in detection priority order.
pub fn priority_keys() -> (r: Vec<MerchantKey>)
    ensures
        r@ == detection_priority(),
{
    let mut r: Vec<MerchantKey> = Vec::new();
    r.push(MerchantKey::Vinmonopolet);
    r.push(MerchantKey::CircleK);
    r.push(MerchantKey::Posten);
    r.push(MerchantKey::Shell);
    r.push(MerchantKey::Coop);
    r.push(MerchantKey::Kiwi);
    r.push(MerchantKey::Rema);
    r.push(MerchantKey::Tine);
    r.push(MerchantKey::Ica);
    proof {
        assert(r@ =~= detection_priority());
    }
    r
}

/// Appends a copy of `s` to a product list, extending its deep view.
fn push_product(v: &mut Vec<String>, s: &str)
    ensures
        final(v).deep_view() == old(v).deep_view().push(s@),
{
    v.push(String::from_str(s));
    proof {
        assert(v.deep_view() =~= old(v).deep_view().push(s@));
    }
}

/// Builds the catalog profile for `k`.
pub fn profile_of(k: MerchantKey) -> (p: MerchantProfile)
    ensures
        p.key == k,
        wf_profile(p),
{
    let mut products: Vec<String> = Vec::new();
    let org_pattern: Option<String>;
    match k {
        MerchantKey::Rema => {
            push_product(&mut products, "Ribbe");
            push_product(&mut products, "Pinnekjøtt");
            push_product(&mut products, "Lutefisk");
            push_product(&mut products, "Egg");
            push_product(&mut products, "Lam");
            push_product(&mut products, "Is");
            push_product(&mut products, "Grillmat");
            org_pattern = Some(String::from_str("999208372"));
        },
        MerchantKey::Ica => {
            push_product(&mut products, "Kvikk Lunsj");
            push_product(&mut products, "Egg");
            push_product(&mut products, "Melk");
            push_product(&mut products, "Brød");
            push_product(&mut products, "Ost");
            org_pattern = None;
        },
        MerchantKey::Coop => {
            push_product(&mut products, "Ø-merket");
            push_product(&mut products, "Miljømerket");
            push_product(&mut products, "Lokalt");
            push_product(&mut products, "Nærprodusert");
            org_pattern = None;
        },
        MerchantKey::Kiwi => {
            push_product(&mut products, "Lavpris");
            push_product(&mut products, "Tilbud");
            push_product(&mut products, "2 for 1");
            org_pattern = None;
        },
        MerchantKey::CircleK => {
            push_product(&mut products, "Bensin");
            push_product(&mut products, "Diesel");
            push_product(&mut products, "Kaffe");
            push_product(&mut products, "Pølse");
            push_product(&mut products, "Brus");
            org_pattern = None;
        },
        MerchantKey::Shell => {
            push_product(&mut products, "Drivstoff");
            push_product(&mut products, "Bil");
            push_product(&mut products, "Kaffe");
            org_pattern = None;
        },
        MerchantKey::Tine => {
            push_product(&mut products, "Melk");
            push_product(&mut products, "Yoghurt");
            push_product(&mut products, "Ost");
            push_product(&mut products, "Smør");
            push_product(&mut products, "Fløte");
            org_pattern = None;
        },
        MerchantKey::Posten => {
            push_product(&mut products, "Porto");
            push_product(&mut products, "Pakke");
            push_product(&mut products, "Brev");
            org_pattern = Some(String::from_str("984661185"));
        },
        MerchantKey::Vinmonopolet => {
            push_product(&mut products, "Vin");
            push_product(&mut products, "Øl");
            push_product(&mut products, "Brennevin");
            push_product(&mut products, "Champagne");
            push_product(&mut products, "Akevitt");
            org_pattern = Some(String::from_str("971425831"));
        },
        MerchantKey::Unknown => {
            org_pattern = None;
        },
    }
    proof {
        assert(products.deep_view() =~= products_of(k));
        assert(org_pattern.deep_view() =~= org_pattern_of(k));
    }
    MerchantProfile {
        key: k,
        name: String::from_str(name_text(k)),
        chain: String::from_str(chain_text(k)),
        category: category_exec(k),
        typical_vat_rate: typical_rate_exec(k),
        seasonal_products: products,
        org_pattern,
        base_confidence: base_confidence_exec(k),
    }
}

/// The display name, as a string slice.
fn name_text(k: MerchantKey) -> (r: &'static str)
    ensures
        r@ == name_of(k),
{
    match k {
        MerchantKey::Rema => "REMA 1000",
        MerchantKey::Ica => "ICA Supermarket",
        MerchantKey::Coop => "Coop",
        MerchantKey::Kiwi => "KIWI",
        MerchantKey::CircleK => "Circle K",
        MerchantKey::Shell => "Shell",
        MerchantKey::Tine => "Tine",
        MerchantKey::Posten => "Posten Norge",
        MerchantKey::Vinmonopolet => "Vinmonopolet",
        MerchantKey::Unknown => "Ukjent norsk forhandler",
    }
}

/// The chain name, as a string slice.
fn chain_text(k: MerchantKey) -> (r: &'static str)
    ensures
        r@ == chain_of(k),
{
    match k {
        MerchantKey::Rema => "REMA 1000",
        MerchantKey::Ica => "ICA",
        MerchantKey::Coop => "COOP",
        MerchantKey::Kiwi => "KIWI",
        MerchantKey::CircleK => "Circle K",
        MerchantKey::Shell => "Shell",
        MerchantKey::Tine => "Tine",
        MerchantKey::Posten => "Posten",
        MerchantKey::Vinmonopolet => "Vinmonopolet",
        MerchantKey::Unknown => "Generisk",
    }
}

/// The merchant's category.
fn category_exec(k: MerchantKey) -> (r: Category)
    ensures
        r == category_of(k),
{
    match k {
        MerchantKey::Rema => Category::GroceryStore,
        MerchantKey::Ica => Category::GroceryStore,
        MerchantKey::Coop => Category::GroceryStore,
        MerchantKey::Kiwi => Category::DiscountGrocery,
        MerchantKey::CircleK => Category::GasStation,
        MerchantKey::Shell => Category::GasStation,
        MerchantKey::Tine => Category::DairyProducts,
        MerchantKey::Posten => Category::PostalService,
        MerchantKey::Vinmonopolet => Category::AlcoholMonopoly,
        MerchantKey::Unknown => Category::Unidentified,
    }
}

/// The merchant's typical VAT rate.
fn typical_rate_exec(k: MerchantKey) -> (r: u8)
    ensures
        r == typical_rate_of(k),
{
    match category_exec(k) {
        Category::GroceryStore => 15,
        Category::DiscountGrocery => 15,
        Category::DairyProducts => 15,
        _ => 25,
    }
}

/// The merchant's base confidence, in thousandths.
fn base_confidence_exec(k: MerchantKey) -> (r: u32)
    ensures
        r == base_confidence_of(k),
{
    match k {
        MerchantKey::Rema => 950,
        MerchantKey::Ica => 920,
        MerchantKey::Coop => 940,
        MerchantKey::Kiwi => 930,
        MerchantKey::CircleK => 880,
        MerchantKey::Shell => 870,
        MerchantKey::Tine => 980,
        MerchantKey::Posten => 990,
        MerchantKey::Vinmonopolet => 990,
        MerchantKey::Unknown => 500,
    }
}

/// The display label of a category, as used in transaction records.
pub open spec fn category_label_of(c: Category) -> Seq<char> {
    match c {
        Category::GroceryStore => "Grocery Store"@,
        Category::DiscountGrocery => "Discount Grocery"@,
        Category::GasStation => "Gas Station"@,
        Category::DairyProducts => "Dairy Products"@,
        Category::PostalService => "Postal Service"@,
        Category::AlcoholMonopoly => "Alcohol Monopoly"@,
        Category::Unidentified => "Uidentifisert"@,
    }
}

/// The display label of a category.
pub fn category_label(c: Category) -> (r: String)
    ensures
        r@ == category_label_of(c),
{
    match c {
        Category::GroceryStore => String::from_str("Grocery Store"),
        Category::DiscountGrocery => String::from_str("Discount Grocery"),
        Category::GasStation => String::from_str("Gas Station"),
        Category::DairyProducts => String::from_str("Dairy Products"),
        Category::PostalService => String::from_str("Postal Service"),
        Category::AlcoholMonopoly => String::from_str("Alcohol Monopoly"),
        Category::Unidentified => String::from_str("Uidentifisert"),
    }
}

} // verus!
