//! The `PlaceType` enum and its associated codecs. It specifies the types
//! or categories of a place: a returned place could be a "country" (as in
//! a nation) or it could be a "shopping mall". Each member has exactly one
//! canonical wire string, and decoding an unknown wire string fails rather
//! than silently defaulting.

use crate::text::{join_sep, lemma_join_push, str_eq};
use crate::types::error::Error;
use vstd::prelude::*;
use vstd::string::StringExecFns;

verus! {

/// The types or categories of a place, as used in place searches, place
/// details results, and autocomplete predictions. The set is closed: each
/// member maps to exactly one wire code.
#[derive(Clone, Copy, Debug, Eq, Hash, Ord, PartialEq, PartialOrd, Structural)]
pub enum PlaceType {
    Accounting,
    Airport,
    AmusementPark,
    Aquarium,
    ArtGallery,
    Atm,
    Bakery,
    Bank,
    Bar,
    BeautySalon,
    BicycleStore,
    BookStore,
    BowlingAlley,
    BusStation,
    Cafe,
    Campground,
    CarDealer,
    CarRental,
    CarRepair,
    CarWash,
    Casino,
    Cemetery,
    Church,
    CityHall,
    ClothingStore,
    ConvenienceStore,
    Courthouse,
    Dentist,
    DepartmentStore,
    Doctor,
    DrugStore,
    Electrician,
    ElectronicsStore,
    Embassy,
    FireStation,
    Florist,
    FuneralHome,
    FurnitureStore,
    GasStation,
    GroceryOrSupermarket,
    Gym,
    HairCare,
    HardwareStore,
    HinduTemple,
    HomeGoodsStore,
    Hospital,
    InsuranceAgency,
    JewelryStore,
    Laundry,
    Lawyer,
    Library,
    LightRailStation,
    LiquorStore,
    LocalGovernmentOffice,
    Locksmith,
    Lodging,
    MealDelivery,
    MealTakeaway,
    Mosque,
    MovieRental,
    MovieTheater,
    MovingCompany,
    Museum,
    NightClub,
    Painter,
    Park,
    Parking,
    PetStore,
    Pharmacy,
    Physiotherapist,
    Plumber,
    PlusCode,
    Police,
    PostOffice,
    PrimarySchool,
    RealEstateAgency,
    Restaurant,
    RoofingContractor,
    RvPark,
    School,
    SecondarySchool,
    ShoeStore,
    ShoppingMall,
    Spa,
    Stadium,
    Storage,
    Store,
    SubwayStation,
    Supermarket,
    Synagogue,
    TaxiStand,
    TouristAttraction,
    TrainStation,
    TransitStation,
    TravelAgency,
    University,
    VeterinaryCare,
    Zoo,
    AdministrativeAreaLevel1,
    AdministrativeAreaLevel2,
    AdministrativeAreaLevel3,
    AdministrativeAreaLevel4,
    AdministrativeAreaLevel5,
    Archipelago,
    ColloquialArea,
    Continent,
    Country,
    Establishment,
    Finance,
    Floor,
    Food,
    GeneralContractor,
    Geocode,
    Health,
    Intersection,
    Locality,
    NaturalFeature,
    Neighborhood,
    PlaceOfWorship,
    PointOfInterest,
    Political,
    PostBox,
    PostalCode,
    PostalCodePrefix,
    PostalCodeSuffix,
    PostalTown,
    Premise,
    Room,
    Route,
    StreetAddress,
    StreetNumber,
    Sublocality,
    SublocalityLevel1,
    SublocalityLevel2,
    SublocalityLevel3,
    SublocalityLevel4,
    SublocalityLevel5,
    Subpremise,
    TownSquare,
    Address,
    Regions,
    Cities,
}

impl PlaceType {
    /// The canonical wire code for each place type. This mapping is
    /// injective (see [`lemma_place_type_wire_injective`]).
    pub open spec fn wire_spec(self) -> Seq<char> {
        match self {
            Self::Accounting => "accounting"@,
            Self::Airport => "airport"@,
            Self::AmusementPark => "amusement_park"@,
            Self::Aquarium => "aquarium"@,
            Self::ArtGallery => "art_gallery"@,
            Self::Atm => "atm"@,
            Self::Bakery => "bakery"@,
            Self::Bank => "bank"@,
            Self::Bar => "bar"@,
            Self::BeautySalon => "beauty_salon"@,
            Self::BicycleStore => "bicycle_store"@,
            Self::BookStore => "book_store"@,
            Self::BowlingAlley => "bowling_alley"@,
            Self::BusStation => "bus_station"@,
            Self::Cafe => "cafe"@,
            Self::Campground => "campground"@,
            Self::CarDealer => "car_dealer"@,
            Self::CarRental => "car_rental"@,
            Self::CarRepair => "car_repair"@,
            Self::CarWash => "car_wash"@,
            Self::Casino => "casino"@,
            Self::Cemetery => "cemetery"@,
            Self::Church => "church"@,
            Self::CityHall => "city_hall"@,
            Self::ClothingStore => "clothing_store"@,
            Self::ConvenienceStore => "convenience_store"@,
            Self::Courthouse => "courthouse"@,
            Self::Dentist => "dentist"@,
            Self::DepartmentStore => "department_store"@,
            Self::Doctor => "doctor"@,
            Self::DrugStore => "drugstore"@,
            Self::Electrician => "electrician"@,
            Self::ElectronicsStore => "electronics_store"@,
            Self::Embassy => "embassy"@,
            Self::FireStation => "fire_station"@,
            Self::Florist => "florist"@,
            Self::FuneralHome => "funeral_home"@,
            Self::FurnitureStore => "furniture_store"@,
            Self::GasStation => "gas_station"@,
            Self::GroceryOrSupermarket => "grocery_or_supermarket"@,
            Self::Gym => "gym"@,
            Self::HairCare => "hair_care"@,
            Self::HardwareStore => "hardware_store"@,
            Self::HinduTemple => "hindu_temple"@,
            Self::HomeGoodsStore => "home_goods_store"@,
            Self::Hospital => "hospital"@,
            Self::InsuranceAgency => "insurance_agency"@,
            Self::JewelryStore => "jewelry_store"@,
            Self::Laundry => "laundry"@,
            Self::Lawyer => "lawyer"@,
            Self::Library => "library"@,
            Self::LightRailStation => "light_rail_station"@,
            Self::LiquorStore => "liquor_store"@,
            Self::LocalGovernmentOffice => "local_government_office"@,
            Self::Locksmith => "locksmith"@,
            Self::Lodging => "lodging"@,
            Self::MealDelivery => "meal_delivery"@,
            Self::MealTakeaway => "meal_takeaway"@,
            Self::Mosque => "mosque"@,
            Self::MovieRental => "movie_rental"@,
            Self::MovieTheater => "movie_theater"@,
            Self::MovingCompany => "moving_company"@,
            Self::Museum => "museum"@,
            Self::NightClub => "night_club"@,
            Self::Painter => "painter"@,
            Self::Park => "park"@,
            Self::Parking => "parking"@,
            Self::PetStore => "pet_store"@,
            Self::Pharmacy => "pharmacy"@,
            Self::Physiotherapist => "physiotherapist"@,
            Self::Plumber => "plumber"@,
            Self::PlusCode => "plus_code"@,
            Self::Police => "police"@,
            Self::PostOffice => "post_office"@,
            Self::PrimarySchool => "primary_school"@,
            Self::RealEstateAgency => "real_estate_agency"@,
            Self::Restaurant => "restaurant"@,
            Self::RoofingContractor => "roofing_contractor"@,
            Self::RvPark => "rv_park"@,
            Self::School => "school"@,
            Self::SecondarySchool => "secondary_school"@,
            Self::ShoeStore => "shoe_store"@,
            Self::ShoppingMall => "shopping_mall"@,
            Self::Spa => "spa"@,
            Self::Stadium => "stadium"@,
            Self::Storage => "storage"@,
            Self::Store => "store"@,
            Self::SubwayStation => "subway_station"@,
            Self::Supermarket => "supermarket"@,
            Self::Synagogue => "synagogue"@,
            Self::TaxiStand => "taxi_stand"@,
            Self::TouristAttraction => "tourist_attraction"@,
            Self::TrainStation => "train_station"@,
            Self::TransitStation => "transit_station"@,
            Self::TravelAgency => "travel_agency"@,
            Self::University => "university"@,
            Self::VeterinaryCare => "veterinary_care"@,
            Self::Zoo => "zoo"@,
            Self::AdministrativeAreaLevel1 => "administrative_area_level_1"@,
            Self::AdministrativeAreaLevel2 => "administrative_area_level_2"@,
            Self::AdministrativeAreaLevel3 => "administrative_area_level_3"@,
            Self::AdministrativeAreaLevel4 => "administrative_area_level_4"@,
            Self::AdministrativeAreaLevel5 => "administrative_area_level_5"@,
            Self::Archipelago => "archipelago"@,
            Self::ColloquialArea => "colloquial_area"@,
            Self::Continent => "continent"@,
            Self::Country => "country"@,
            Self::Establishment => "establishment"@,
            Self::Finance => "finance"@,
            Self::Floor => "floor"@,
            Self::Food => "food"@,
            Self::GeneralContractor => "general_contractor"@,
            Self::Geocode => "geocode"@,
            Self::Health => "health"@,
            Self::Intersection => "intersection"@,
            Self::Locality => "locality"@,
            Self::NaturalFeature => "natural_feature"@,
            Self::Neighborhood => "neighborhood"@,
            Self::PlaceOfWorship => "place_of_worship"@,
            Self::PointOfInterest => "point_of_interest"@,
            Self::Political => "political"@,
            Self::PostBox => "post_box"@,
            Self::PostalCode => "postal_code"@,
            Self::PostalCodePrefix => "postal_code_prefix"@,
            Self::PostalCodeSuffix => "postal_code_suffix"@,
            Self::PostalTown => "postal_town"@,
            Self::Premise => "premise"@,
            Self::Room => "room"@,
            Self::Route => "route"@,
            Self::StreetAddress => "street_address"@,
            Self::StreetNumber => "street_number"@,
            Self::Sublocality => "sublocality"@,
            Self::SublocalityLevel1 => "sublocality_level_1"@,
            Self::SublocalityLevel2 => "sublocality_level_2"@,
            Self::SublocalityLevel3 => "sublocality_level_3"@,
            Self::SublocalityLevel4 => "sublocality_level_4"@,
            Self::SublocalityLevel5 => "sublocality_level_5"@,
            Self::Subpremise => "subpremise"@,
            Self::TownSquare => "town_square"@,
            Self::Address => "address"@,
            Self::Regions => "regions"@,
            Self::Cities => "cities"@,
        }
    }

    /// The partial inverse of [`PlaceType::wire_spec`]: defined on exactly
    /// the recognized wire codes. The lookup goes by the code's length
    /// first, then by its text, mirroring a constant-time lookup table.
    pub open spec fn from_wire_spec(s: Seq<char>) -> Option<PlaceType> {
        if s.len() == 3 {
            if s == "atm"@ {
                Some(Self::Atm)
            } else if s == "bar"@ {
                Some(Self::Bar)
            } else if s == "gym"@ {
                Some(Self::Gym)
            } else if s == "spa"@ {
                Some(Self::Spa)
            } else if s == "zoo"@ {
                Some(Self::Zoo)
            } else {
                None
            }
        } else if s.len() == 4 {
            if s == "bank"@ {
                Some(Self::Bank)
            } else if s == "cafe"@ {
                Some(Self::Cafe)
            } else if s == "park"@ {
                Some(Self::Park)
            } else if s == "food"@ {
                Some(Self::Food)
            } else if s == "room"@ {
                Some(Self::Room)
            } else {
                None
            }
        } else if s.len() == 5 {
            if s == "store"@ {
                Some(Self::Store)
            } else if s == "floor"@ {
                Some(Self::Floor)
            } else if s == "route"@ {
                Some(Self::Route)
            } else {
                None
            }
        } else if s.len() == 6 {
            if s == "bakery"@ {
                Some(Self::Bakery)
            } else if s == "casino"@ {
                Some(Self::Casino)
            } else if s == "church"@ {
                Some(Self::Church)
            } else if s == "doctor"@ {
                Some(Self::Doctor)
            } else if s == "lawyer"@ {
                Some(Self::Lawyer)
            } else if s == "mosque"@ {
                Some(Self::Mosque)
            } else if s == "museum"@ {
                Some(Self::Museum)
            } else if s == "police"@ {
                Some(Self::Police)
            } else if s == "school"@ {
                Some(Self::School)
            } else if s == "health"@ {
                Some(Self::Health)
            } else if s == "cities"@ {
                Some(Self::Cities)
            } else {
                None
            }
        } else if s.len() == 7 {
            if s == "airport"@ {
                Some(Self::Airport)
            } else if s == "dentist"@ {
                Some(Self::Dentist)
            } else if s == "embassy"@ {
                Some(Self::Embassy)
            } else if s == "florist"@ {
                Some(Self::Florist)
            } else if s == "laundry"@ {
                Some(Self::Laundry)
            } else if s == "library"@ {
                Some(Self::Library)
            } else if s == "lodging"@ {
                Some(Self::Lodging)
            } else if s == "painter"@ {
                Some(Self::Painter)
            } else if s == "parking"@ {
                Some(Self::Parking)
            } else if s == "plumber"@ {
                Some(Self::Plumber)
            } else if s == "rv_park"@ {
                Some(Self::RvPark)
            } else if s == "stadium"@ {
                Some(Self::Stadium)
            } else if s == "storage"@ {
                Some(Self::Storage)
            } else if s == "country"@ {
                Some(Self::Country)
            } else if s == "finance"@ {
                Some(Self::Finance)
            } else if s == "geocode"@ {
                Some(Self::Geocode)
            } else if s == "premise"@ {
                Some(Self::Premise)
            } else if s == "address"@ {
                Some(Self::Address)
            } else if s == "regions"@ {
                Some(Self::Regions)
            } else {
                None
            }
        } else if s.len() == 8 {
            if s == "aquarium"@ {
                Some(Self::Aquarium)
            } else if s == "car_wash"@ {
                Some(Self::CarWash)
            } else if s == "cemetery"@ {
                Some(Self::Cemetery)
            } else if s == "hospital"@ {
                Some(Self::Hospital)
            } else if s == "pharmacy"@ {
                Some(Self::Pharmacy)
            } else if s == "locality"@ {
                Some(Self::Locality)
            } else if s == "post_box"@ {
                Some(Self::PostBox)
            } else {
                None
            }
        } else if s.len() == 9 {
            if s == "city_hall"@ {
                Some(Self::CityHall)
            } else if s == "drugstore"@ {
                Some(Self::DrugStore)
            } else if s == "hair_care"@ {
                Some(Self::HairCare)
            } else if s == "locksmith"@ {
                Some(Self::Locksmith)
            } else if s == "pet_store"@ {
                Some(Self::PetStore)
            } else if s == "plus_code"@ {
                Some(Self::PlusCode)
            } else if s == "synagogue"@ {
                Some(Self::Synagogue)
            } else if s == "continent"@ {
                Some(Self::Continent)
            } else if s == "political"@ {
                Some(Self::Political)
            } else {
                None
            }
        } else if s.len() == 10 {
            if s == "accounting"@ {
                Some(Self::Accounting)
            } else if s == "book_store"@ {
                Some(Self::BookStore)
            } else if s == "campground"@ {
                Some(Self::Campground)
            } else if s == "car_dealer"@ {
                Some(Self::CarDealer)
            } else if s == "car_rental"@ {
                Some(Self::CarRental)
            } else if s == "car_repair"@ {
                Some(Self::CarRepair)
            } else if s == "courthouse"@ {
                Some(Self::Courthouse)
            } else if s == "night_club"@ {
                Some(Self::NightClub)
            } else if s == "restaurant"@ {
                Some(Self::Restaurant)
            } else if s == "shoe_store"@ {
                Some(Self::ShoeStore)
            } else if s == "taxi_stand"@ {
                Some(Self::TaxiStand)
            } else if s == "university"@ {
                Some(Self::University)
            } else if s == "subpremise"@ {
                Some(Self::Subpremise)
            } else {
                None
            }
        } else if s.len() == 11 {
            if s == "art_gallery"@ {
                Some(Self::ArtGallery)
            } else if s == "bus_station"@ {
                Some(Self::BusStation)
            } else if s == "electrician"@ {
                Some(Self::Electrician)
            } else if s == "gas_station"@ {
                Some(Self::GasStation)
            } else if s == "post_office"@ {
                Some(Self::PostOffice)
            } else if s == "supermarket"@ {
                Some(Self::Supermarket)
            } else if s == "archipelago"@ {
                Some(Self::Archipelago)
            } else if s == "postal_code"@ {
                Some(Self::PostalCode)
            } else if s == "postal_town"@ {
                Some(Self::PostalTown)
            } else if s == "sublocality"@ {
                Some(Self::Sublocality)
            } else if s == "town_square"@ {
                Some(Self::TownSquare)
            } else {
                None
            }
        } else if s.len() == 12 {
            if s == "beauty_salon"@ {
                Some(Self::BeautySalon)
            } else if s == "fire_station"@ {
                Some(Self::FireStation)
            } else if s == "funeral_home"@ {
                Some(Self::FuneralHome)
            } else if s == "hindu_temple"@ {
                Some(Self::HinduTemple)
            } else if s == "liquor_store"@ {
                Some(Self::LiquorStore)
            } else if s == "movie_rental"@ {
                Some(Self::MovieRental)
            } else if s == "intersection"@ {
                Some(Self::Intersection)
            } else if s == "neighborhood"@ {
                Some(Self::Neighborhood)
            } else {
                None
            }
        } else if s.len() == 13 {
            if s == "bicycle_store"@ {
                Some(Self::BicycleStore)
            } else if s == "bowling_alley"@ {
                Some(Self::BowlingAlley)
            } else if s == "jewelry_store"@ {
                Some(Self::JewelryStore)
            } else if s == "meal_delivery"@ {
                Some(Self::MealDelivery)
            } else if s == "meal_takeaway"@ {
                Some(Self::MealTakeaway)
            } else if s == "movie_theater"@ {
                Some(Self::MovieTheater)
            } else if s == "shopping_mall"@ {
                Some(Self::ShoppingMall)
            } else if s == "train_station"@ {
                Some(Self::TrainStation)
            } else if s == "travel_agency"@ {
                Some(Self::TravelAgency)
            } else if s == "establishment"@ {
                Some(Self::Establishment)
            } else if s == "street_number"@ {
                Some(Self::StreetNumber)
            } else {
                None
            }
        } else if s.len() == 14 {
            if s == "amusement_park"@ {
                Some(Self::AmusementPark)
            } else if s == "clothing_store"@ {
                Some(Self::ClothingStore)
            } else if s == "hardware_store"@ {
                Some(Self::HardwareStore)
            } else if s == "moving_company"@ {
                Some(Self::MovingCompany)
            } else if s == "primary_school"@ {
                Some(Self::PrimarySchool)
            } else if s == "subway_station"@ {
                Some(Self::SubwayStation)
            } else if s == "street_address"@ {
                Some(Self::StreetAddress)
            } else {
                None
            }
        } else if s.len() == 15 {
            if s == "furniture_store"@ {
                Some(Self::FurnitureStore)
            } else if s == "physiotherapist"@ {
                Some(Self::Physiotherapist)
            } else if s == "transit_station"@ {
                Some(Self::TransitStation)
            } else if s == "veterinary_care"@ {
                Some(Self::VeterinaryCare)
            } else if s == "colloquial_area"@ {
                Some(Self::ColloquialArea)
            } else if s == "natural_feature"@ {
                Some(Self::NaturalFeature)
            } else {
                None
            }
        } else if s.len() == 16 {
            if s == "department_store"@ {
                Some(Self::DepartmentStore)
            } else if s == "home_goods_store"@ {
                Some(Self::HomeGoodsStore)
            } else if s == "insurance_agency"@ {
                Some(Self::InsuranceAgency)
            } else if s == "secondary_school"@ {
                Some(Self::SecondarySchool)
            } else if s == "place_of_worship"@ {
                Some(Self::PlaceOfWorship)
            } else {
                None
            }
        } else if s.len() == 17 {
            if s == "convenience_store"@ {
                Some(Self::ConvenienceStore)
            } else if s == "electronics_store"@ {
                Some(Self::ElectronicsStore)
            } else if s == "point_of_interest"@ {
                Some(Self::PointOfInterest)
            } else {
                None
            }
        } else if s.len() == 18 {
            if s == "light_rail_station"@ {
                Some(Self::LightRailStation)
            } else if s == "real_estate_agency"@ {
                Some(Self::RealEstateAgency)
            } else if s == "roofing_contractor"@ {
                Some(Self::RoofingContractor)
            } else if s == "tourist_attraction"@ {
                Some(Self::TouristAttraction)
            } else if s == "general_contractor"@ {
                Some(Self::GeneralContractor)
            } else if s == "postal_code_prefix"@ {
                Some(Self::PostalCodePrefix)
            } else if s == "postal_code_suffix"@ {
                Some(Self::PostalCodeSuffix)
            } else {
                None
            }
        } else if s.len() == 19 {
            if s == "sublocality_level_1"@ {
                Some(Self::SublocalityLevel1)
            } else if s == "sublocality_level_2"@ {
                Some(Self::SublocalityLevel2)
            } else if s == "sublocality_level_3"@ {
                Some(Self::SublocalityLevel3)
            } else if s == "sublocality_level_4"@ {
                Some(Self::SublocalityLevel4)
            } else if s == "sublocality_level_5"@ {
                Some(Self::SublocalityLevel5)
            } else {
                None
            }
        } else if s.len() == 22 {
            if s == "grocery_or_supermarket"@ {
                Some(Self::GroceryOrSupermarket)
            } else {
                None
            }
        } else if s.len() == 23 {
            if s == "local_government_office"@ {
                Some(Self::LocalGovernmentOffice)
            } else {
                None
            }
        } else if s.len() == 27 {
            if s == "administrative_area_level_1"@ {
                Some(Self::AdministrativeAreaLevel1)
            } else if s == "administrative_area_level_2"@ {
                Some(Self::AdministrativeAreaLevel2)
            } else if s == "administrative_area_level_3"@ {
                Some(Self::AdministrativeAreaLevel3)
            } else if s == "administrative_area_level_4"@ {
                Some(Self::AdministrativeAreaLevel4)
            } else if s == "administrative_area_level_5"@ {
                Some(Self::AdministrativeAreaLevel5)
            } else {
                None
            }
        } else {
            None
        }
    }

    /// The human-readable display form, used only for presentation and
    /// never for round-tripping.
    pub open spec fn display_spec(self) -> Seq<char> {
        match self {
            Self::Accounting => "Accounting"@,
            Self::Airport => "Airport"@,
            Self::AmusementPark => "Amusement Park"@,
            Self::Aquarium => "Aquarium"@,
            Self::ArtGallery => "Art Gallery"@,
            Self::Atm => "ATM"@,
            Self::Bakery => "Bakery"@,
            Self::Bank => "Bank"@,
            Self::Bar => "Bar"@,
            Self::BeautySalon => "Beauty Salon"@,
            Self::BicycleStore => "Bicycle Store"@,
            Self::BookStore => "Book Store"@,
            Self::BowlingAlley => "Bowling Alley"@,
            Self::BusStation => "Bus Station"@,
            Self::Cafe => "Café"@,
            Self::Campground => "Campground"@,
            Self::CarDealer => "Car Dealer"@,
            Self::CarRental => "Car Rental"@,
            Self::CarRepair => "Car Rrepair"@,
            Self::CarWash => "Car Wash"@,
            Self::Casino => "Casino"@,
            Self::Cemetery => "Cemetery"@,
            Self::Church => "Church"@,
            Self::CityHall => "City Hall"@,
            Self::ClothingStore => "Clothing Store"@,
            Self::ConvenienceStore => "Convenience Store"@,
            Self::Courthouse => "Courthouse"@,
            Self::Dentist => "Dentist"@,
            Self::DepartmentStore => "Department Store"@,
            Self::Doctor => "Doctor"@,
            Self::DrugStore => "Drug Store"@,
            Self::Electrician => "Electrician"@,
            Self::ElectronicsStore => "Electronics Store"@,
            Self::Embassy => "Embassy"@,
            Self::FireStation => "Fire Station"@,
            Self::Florist => "Florist"@,
            Self::FuneralHome => "Funeral Home"@,
            Self::FurnitureStore => "Furniture Store"@,
            Self::GasStation => "Gas Station"@,
            Self::GroceryOrSupermarket => "Grocery or Supermarket"@,
            Self::Gym => "Gym"@,
            Self::HairCare => "Hair Care"@,
            Self::HardwareStore => "Hardware Store"@,
            Self::HinduTemple => "Hindu Temple"@,
            Self::HomeGoodsStore => "Home Goods Store"@,
            Self::Hospital => "Hospital"@,
            Self::InsuranceAgency => "Insurance Agency"@,
            Self::JewelryStore => "Jewelry Store"@,
            Self::Laundry => "Laundry"@,
            Self::Lawyer => "Lawyer"@,
            Self::Library => "Library"@,
            Self::LightRailStation => "Light Rail Station"@,
            Self::LiquorStore => "Liquor Store"@,
            Self::LocalGovernmentOffice => "Local Government Office"@,
            Self::Locksmith => "Locksmith"@,
            Self::Lodging => "Lodging"@,
            Self::MealDelivery => "Meal Delivery"@,
            Self::MealTakeaway => "Meal Takeaway"@,
            Self::Mosque => "Mosque"@,
            Self::MovieRental => "Movie Rental"@,
            Self::MovieTheater => "Movie Theater"@,
            Self::MovingCompany => "Moving Company"@,
            Self::Museum => "Museum"@,
            Self::NightClub => "Night Club"@,
            Self::Painter => "Painter"@,
            Self::Park => "Park"@,
            Self::Parking => "Parking"@,
            Self::PetStore => "Pet Store"@,
            Self::Pharmacy => "Pharmacy"@,
            Self::Physiotherapist => "Physiotherapist"@,
            Self::Plumber => "Plumber"@,
            Self::PlusCode => "Plus Code"@,
            Self::Police => "Police"@,
            Self::PostOffice => "Post Office"@,
            Self::PrimarySchool => "Primary School"@,
            Self::RealEstateAgency => "Real Estate Agency"@,
            Self::Restaurant => "Restaurant"@,
            Self::RoofingContractor => "Roofing Contractor"@,
            Self::RvPark => "RV Park"@,
            Self::School => "School"@,
            Self::SecondarySchool => "Secondary School"@,
            Self::ShoeStore => "Shoe Store"@,
            Self::ShoppingMall => "Shopping Mall"@,
            Self::Spa => "Spa"@,
            Self::Stadium => "Stadium"@,
            Self::Storage => "Storage"@,
            Self::Store => "Store"@,
            Self::SubwayStation => "Subway Station"@,
            Self::Supermarket => "Supermarket"@,
            Self::Synagogue => "Synagogue"@,
            Self::TaxiStand => "Taxi Stand"@,
            Self::TouristAttraction => "Tourist Attraction"@,
            Self::TrainStation => "Train Station"@,
            Self::TransitStation => "Transit Station"@,
            Self::TravelAgency => "Travel Agency"@,
            Self::University => "University"@,
            Self::VeterinaryCare => "Veterinary Care"@,
            Self::Zoo => "Zoo"@,
            Self::AdministrativeAreaLevel1 => "Administrative Area Level 1"@,
            Self::AdministrativeAreaLevel2 => "Administrative Area Level 2"@,
            Self::AdministrativeAreaLevel3 => "Administrative Area Level 3"@,
            Self::AdministrativeAreaLevel4 => "Administrative Area Level 4"@,
            Self::AdministrativeAreaLevel5 => "Administrative Area Level 5"@,
            Self::Archipelago => "Archipelago"@,
            Self::ColloquialArea => "Colloquial Area"@,
            Self::Continent => "Continent"@,
            Self::Country => "Country"@,
            Self::Establishment => "Establishment"@,
            Self::Finance => "Finance"@,
            Self::Floor => "Floor"@,
            Self::Food => "Food"@,
            Self::GeneralContractor => "General Contractor"@,
            Self::Geocode => "Geocode"@,
            Self::Health => "Health"@,
            Self::Intersection => "Intersection"@,
            Self::Locality => "Locality"@,
            Self::NaturalFeature => "Natural Feature"@,
            Self::Neighborhood => "Neighborhood"@,
            Self::PlaceOfWorship => "Place of Worship"@,
            Self::PointOfInterest => "Point of Interest"@,
            Self::Political => "Political"@,
            Self::PostBox => "Post Box"@,
            Self::PostalCode => "Postal Code"@,
            Self::PostalCodePrefix => "Postal Code Prefix"@,
            Self::PostalCodeSuffix => "Postal Code Suffix"@,
            Self::PostalTown => "Postal Town"@,
            Self::Premise => "Premise"@,
            Self::Room => "Room"@,
            Self::Route => "Route"@,
            Self::StreetAddress => "Street Address"@,
            Self::StreetNumber => "Street Number"@,
            Self::Sublocality => "Sublocality"@,
            Self::SublocalityLevel1 => "Sublocality Level 1"@,
            Self::SublocalityLevel2 => "Sublocality Level 2"@,
            Self::SublocalityLevel3 => "Sublocality Level 3"@,
            Self::SublocalityLevel4 => "Sublocality Level 4"@,
            Self::SublocalityLevel5 => "Sublocality Level 5"@,
            Self::Subpremise => "Subpremise"@,
            Self::TownSquare => "Town Square"@,
            Self::Address => "Address"@,
            Self::Regions => "Regions"@,
            Self::Cities => "Cities"@,
        }
    }

    /// Converts a `PlaceType` enum to its wire code.
    pub fn to_wire(&self) -> (r: &'static str)
        ensures
            r@ == self.wire_spec(),
    {
        match self {
            Self::Accounting => "accounting",
            Self::Airport => "airport",
            Self::AmusementPark => "amusement_park",
            Self::Aquarium => "aquarium",
            Self::ArtGallery => "art_gallery",
            Self::Atm => "atm",
            Self::Bakery => "bakery",
            Self::Bank => "bank",
            Self::Bar => "bar",
            Self::BeautySalon => "beauty_salon",
            Self::BicycleStore => "bicycle_store",
            Self::BookStore => "book_store",
            Self::BowlingAlley => "bowling_alley",
            Self::BusStation => "bus_station",
            Self::Cafe => "cafe",
            Self::Campground => "campground",
            Self::CarDealer => "car_dealer",
            Self::CarRental => "car_rental",
            Self::CarRepair => "car_repair",
            Self::CarWash => "car_wash",
            Self::Casino => "casino",
            Self::Cemetery => "cemetery",
            Self::Church => "church",
            Self::CityHall => "city_hall",
            Self::ClothingStore => "clothing_store",
            Self::ConvenienceStore => "convenience_store",
            Self::Courthouse => "courthouse",
            Self::Dentist => "dentist",
            Self::DepartmentStore => "department_store",
            Self::Doctor => "doctor",
            Self::DrugStore => "drugstore",
            Self::Electrician => "electrician",
            Self::ElectronicsStore => "electronics_store",
            Self::Embassy => "embassy",
            Self::FireStation => "fire_station",
            Self::Florist => "florist",
            Self::FuneralHome => "funeral_home",
            Self::FurnitureStore => "furniture_store",
            Self::GasStation => "gas_station",
            Self::GroceryOrSupermarket => "grocery_or_supermarket",
            Self::Gym => "gym",
            Self::HairCare => "hair_care",
            Self::HardwareStore => "hardware_store",
            Self::HinduTemple => "hindu_temple",
            Self::HomeGoodsStore => "home_goods_store",
            Self::Hospital => "hospital",
            Self::InsuranceAgency => "insurance_agency",
            Self::JewelryStore => "jewelry_store",
            Self::Laundry => "laundry",
            Self::Lawyer => "lawyer",
            Self::Library => "library",
            Self::LightRailStation => "light_rail_station",
            Self::LiquorStore => "liquor_store",
            Self::LocalGovernmentOffice => "local_government_office",
            Self::Locksmith => "locksmith",
            Self::Lodging => "lodging",
            Self::MealDelivery => "meal_delivery",
            Self::MealTakeaway => "meal_takeaway",
            Self::Mosque => "mosque",
            Self::MovieRental => "movie_rental",
            Self::MovieTheater => "movie_theater",
            Self::MovingCompany => "moving_company",
            Self::Museum => "museum",
            Self::NightClub => "night_club",
            Self::Painter => "painter",
            Self::Park => "park",
            Self::Parking => "parking",
            Self::PetStore => "pet_store",
            Self::Pharmacy => "pharmacy",
            Self::Physiotherapist => "physiotherapist",
            Self::Plumber => "plumber",
            Self::PlusCode => "plus_code",
            Self::Police => "police",
            Self::PostOffice => "post_office",
            Self::PrimarySchool => "primary_school",
            Self::RealEstateAgency => "real_estate_agency",
            Self::Restaurant => "restaurant",
            Self::RoofingContractor => "roofing_contractor",
            Self::RvPark => "rv_park",
            Self::School => "school",
            Self::SecondarySchool => "secondary_school",
            Self::ShoeStore => "shoe_store",
            Self::ShoppingMall => "shopping_mall",
            Self::Spa => "spa",
            Self::Stadium => "stadium",
            Self::Storage => "storage",
            Self::Store => "store",
            Self::SubwayStation => "subway_station",
            Self::Supermarket => "supermarket",
            Self::Synagogue => "synagogue",
            Self::TaxiStand => "taxi_stand",
            Self::TouristAttraction => "tourist_attraction",
            Self::TrainStation => "train_station",
            Self::TransitStation => "transit_station",
            Self::TravelAgency => "travel_agency",
            Self::University => "university",
            Self::VeterinaryCare => "veterinary_care",
            Self::Zoo => "zoo",
            Self::AdministrativeAreaLevel1 => "administrative_area_level_1",
            Self::AdministrativeAreaLevel2 => "administrative_area_level_2",
            Self::AdministrativeAreaLevel3 => "administrative_area_level_3",
            Self::AdministrativeAreaLevel4 => "administrative_area_level_4",
            Self::AdministrativeAreaLevel5 => "administrative_area_level_5",
            Self::Archipelago => "archipelago",
            Self::ColloquialArea => "colloquial_area",
            Self::Continent => "continent",
            Self::Country => "country",
            Self::Establishment => "establishment",
            Self::Finance => "finance",
            Self::Floor => "floor",
            Self::Food => "food",
            Self::GeneralContractor => "general_contractor",
            Self::Geocode => "geocode",
            Self::Health => "health",
            Self::Intersection => "intersection",
            Self::Locality => "locality",
            Self::NaturalFeature => "natural_feature",
            Self::Neighborhood => "neighborhood",
            Self::PlaceOfWorship => "place_of_worship",
            Self::PointOfInterest => "point_of_interest",
            Self::Political => "political",
            Self::PostBox => "post_box",
            Self::PostalCode => "postal_code",
            Self::PostalCodePrefix => "postal_code_prefix",
            Self::PostalCodeSuffix => "postal_code_suffix",
            Self::PostalTown => "postal_town",
            Self::Premise => "premise",
            Self::Room => "room",
            Self::Route => "route",
            Self::StreetAddress => "street_address",
            Self::StreetNumber => "street_number",
            Self::Sublocality => "sublocality",
            Self::SublocalityLevel1 => "sublocality_level_1",
            Self::SublocalityLevel2 => "sublocality_level_2",
            Self::SublocalityLevel3 => "sublocality_level_3",
            Self::SublocalityLevel4 => "sublocality_level_4",
            Self::SublocalityLevel5 => "sublocality_level_5",
            Self::Subpremise => "subpremise",
            Self::TownSquare => "town_square",
            Self::Address => "address",
            Self::Regions => "regions",
            Self::Cities => "cities",
        }
    }

    /// Gets a `PlaceType` enum from a string that contains a supported
    /// place type code. An unrecognized code fails with an error carrying
    /// the offending string verbatim.
    pub fn from_wire(code: &str) -> (r: Result<PlaceType, Error>)
        ensures
            match r {
                Ok(v) => PlaceType::from_wire_spec(code@) == Some(v),
                Err(e) => PlaceType::from_wire_spec(code@) is None && (e matches
                Error::InvalidPlaceTypeCode(c) && c@ == code@),
            },
    {
        if str_eq(code, "accounting") {
            proof {
                reveal_strlit("accounting");
            }
            Ok(Self::Accounting)
        } else if str_eq(code, "airport") {
            proof {
                reveal_strlit("airport");
            }
            Ok(Self::Airport)
        } else if str_eq(code, "amusement_park") {
            proof {
                reveal_strlit("amusement_park");
            }
            Ok(Self::AmusementPark)
        } else if str_eq(code, "aquarium") {
            proof {
                reveal_strlit("aquarium");
            }
            Ok(Self::Aquarium)
        } else if str_eq(code, "art_gallery") {
            proof {
                reveal_strlit("art_gallery");
            }
            Ok(Self::ArtGallery)
        } else if str_eq(code, "atm") {
            proof {
                reveal_strlit("atm");
            }
            Ok(Self::Atm)
        } else if str_eq(code, "bakery") {
            proof {
                reveal_strlit("bakery");
            }
            Ok(Self::Bakery)
        } else if str_eq(code, "bank") {
            proof {
                reveal_strlit("bank");
            }
            Ok(Self::Bank)
        } else if str_eq(code, "bar") {
            proof {
                reveal_strlit("bar");
            }
            Ok(Self::Bar)
        } else if str_eq(code, "beauty_salon") {
            proof {
                reveal_strlit("beauty_salon");
            }
            Ok(Self::BeautySalon)
        } else if str_eq(code, "bicycle_store") {
            proof {
                reveal_strlit("bicycle_store");
            }
            Ok(Self::BicycleStore)
        } else if str_eq(code, "book_store") {
            proof {
                reveal_strlit("book_store");
            }
            Ok(Self::BookStore)
        } else if str_eq(code, "bowling_alley") {
            proof {
                reveal_strlit("bowling_alley");
            }
            Ok(Self::BowlingAlley)
        } else if str_eq(code, "bus_station") {
            proof {
                reveal_strlit("bus_station");
            }
            Ok(Self::BusStation)
        } else if str_eq(code, "cafe") {
            proof {
                reveal_strlit("cafe");
            }
            Ok(Self::Cafe)
        } else if str_eq(code, "campground") {
            proof {
                reveal_strlit("campground");
            }
            Ok(Self::Campground)
        } else if str_eq(code, "car_dealer") {
            proof {
                reveal_strlit("car_dealer");
            }
            Ok(Self::CarDealer)
        } else if str_eq(code, "car_rental") {
            proof {
                reveal_strlit("car_rental");
            }
            Ok(Self::CarRental)
        } else if str_eq(code, "car_repair") {
            proof {
                reveal_strlit("car_repair");
            }
            Ok(Self::CarRepair)
        } else if str_eq(code, "car_wash") {
            proof {
                reveal_strlit("car_wash");
            }
            Ok(Self::CarWash)
        } else if str_eq(code, "casino") {
            proof {
                reveal_strlit("casino");
            }
            Ok(Self::Casino)
        } else if str_eq(code, "cemetery") {
            proof {
                reveal_strlit("cemetery");
            }
            Ok(Self::Cemetery)
        } else if str_eq(code, "church") {
            proof {
                reveal_strlit("church");
            }
            Ok(Self::Church)
        } else if str_eq(code, "city_hall") {
            proof {
                reveal_strlit("city_hall");
            }
            Ok(Self::CityHall)
        } else if str_eq(code, "clothing_store") {
            proof {
                reveal_strlit("clothing_store");
            }
            Ok(Self::ClothingStore)
        } else if str_eq(code, "convenience_store") {
            proof {
                reveal_strlit("convenience_store");
            }
            Ok(Self::ConvenienceStore)
        } else if str_eq(code, "courthouse") {
            proof {
                reveal_strlit("courthouse");
            }
            Ok(Self::Courthouse)
        } else if str_eq(code, "dentist") {
            proof {
                reveal_strlit("dentist");
            }
            Ok(Self::Dentist)
        } else if str_eq(code, "department_store") {
            proof {
                reveal_strlit("department_store");
            }
            Ok(Self::DepartmentStore)
        } else if str_eq(code, "doctor") {
            proof {
                reveal_strlit("doctor");
            }
            Ok(Self::Doctor)
        } else if str_eq(code, "drugstore") {
            proof {
                reveal_strlit("drugstore");
            }
            Ok(Self::DrugStore)
        } else if str_eq(code, "electrician") {
            proof {
                reveal_strlit("electrician");
            }
            Ok(Self::Electrician)
        } else if str_eq(code, "electronics_store") {
            proof {
                reveal_strlit("electronics_store");
            }
            Ok(Self::ElectronicsStore)
        } else if str_eq(code, "embassy") {
            proof {
                reveal_strlit("embassy");
            }
            Ok(Self::Embassy)
        } else if str_eq(code, "fire_station") {
            proof {
                reveal_strlit("fire_station");
            }
            Ok(Self::FireStation)
        } else if str_eq(code, "florist") {
            proof {
                reveal_strlit("florist");
            }
            Ok(Self::Florist)
        } else if str_eq(code, "funeral_home") {
            proof {
                reveal_strlit("funeral_home");
            }
            Ok(Self::FuneralHome)
        } else if str_eq(code, "furniture_store") {
            proof {
                reveal_strlit("furniture_store");
            }
            Ok(Self::FurnitureStore)
        } else if str_eq(code, "gas_station") {
            proof {
                reveal_strlit("gas_station");
            }
            Ok(Self::GasStation)
        } else if str_eq(code, "grocery_or_supermarket") {
            proof {
                reveal_strlit("grocery_or_supermarket");
            }
            Ok(Self::GroceryOrSupermarket)
        } else if str_eq(code, "gym") {
            proof {
                reveal_strlit("gym");
            }
            Ok(Self::Gym)
        } else if str_eq(code, "hair_care") {
            proof {
                reveal_strlit("hair_care");
            }
            Ok(Self::HairCare)
        } else if str_eq(code, "hardware_store") {
            proof {
                reveal_strlit("hardware_store");
            }
            Ok(Self::HardwareStore)
        } else if str_eq(code, "hindu_temple") {
            proof {
                reveal_strlit("hindu_temple");
            }
            Ok(Self::HinduTemple)
        } else if str_eq(code, "home_goods_store") {
            proof {
                reveal_strlit("home_goods_store");
            }
            Ok(Self::HomeGoodsStore)
        } else if str_eq(code, "hospital") {
            proof {
                reveal_strlit("hospital");
            }
            Ok(Self::Hospital)
        } else if str_eq(code, "insurance_agency") {
            proof {
                reveal_strlit("insurance_agency");
            }
            Ok(Self::InsuranceAgency)
        } else if str_eq(code, "jewelry_store") {
            proof {
                reveal_strlit("jewelry_store");
            }
            Ok(Self::JewelryStore)
        } else if str_eq(code, "laundry") {
            proof {
                reveal_strlit("laundry");
            }
            Ok(Self::Laundry)
        } else if str_eq(code, "lawyer") {
            proof {
                reveal_strlit("lawyer");
            }
            Ok(Self::Lawyer)
        } else if str_eq(code, "library") {
            proof {
                reveal_strlit("library");
            }
            Ok(Self::Library)
        } else if str_eq(code, "light_rail_station") {
            proof {
                reveal_strlit("light_rail_station");
            }
            Ok(Self::LightRailStation)
        } else if str_eq(code, "liquor_store") {
            proof {
                reveal_strlit("liquor_store");
            }
            Ok(Self::LiquorStore)
        } else if str_eq(code, "local_government_office") {
            proof {
                reveal_strlit("local_government_office");
            }
            Ok(Self::LocalGovernmentOffice)
        } else if str_eq(code, "locksmith") {
            proof {
                reveal_strlit("locksmith");
            }
            Ok(Self::Locksmith)
        } else if str_eq(code, "lodging") {
            proof {
                reveal_strlit("lodging");
            }
            Ok(Self::Lodging)
        } else if str_eq(code, "meal_delivery") {
            proof {
                reveal_strlit("meal_delivery");
            }
            Ok(Self::MealDelivery)
        } else if str_eq(code, "meal_takeaway") {
            proof {
                reveal_strlit("meal_takeaway");
            }
            Ok(Self::MealTakeaway)
        } else if str_eq(code, "mosque") {
            proof {
                reveal_strlit("mosque");
            }
            Ok(Self::Mosque)
        } else if str_eq(code, "movie_rental") {
            proof {
                reveal_strlit("movie_rental");
            }
            Ok(Self::MovieRental)
        } else if str_eq(code, "movie_theater") {
            proof {
                reveal_strlit("movie_theater");
            }
            Ok(Self::MovieTheater)
        } else if str_eq(code, "moving_company") {
            proof {
                reveal_strlit("moving_company");
            }
            Ok(Self::MovingCompany)
        } else if str_eq(code, "museum") {
            proof {
                reveal_strlit("museum");
            }
            Ok(Self::Museum)
        } else if str_eq(code, "night_club") {
            proof {
                reveal_strlit("night_club");
            }
            Ok(Self::NightClub)
        } else if str_eq(code, "painter") {
            proof {
                reveal_strlit("painter");
            }
            Ok(Self::Painter)
        } else if str_eq(code, "park") {
            proof {
                reveal_strlit("park");
            }
            Ok(Self::Park)
        } else if str_eq(code, "parking") {
            proof {
                reveal_strlit("parking");
            }
            Ok(Self::Parking)
        } else if str_eq(code, "pet_store") {
            proof {
                reveal_strlit("pet_store");
            }
            Ok(Self::PetStore)
        } else if str_eq(code, "pharmacy") {
            proof {
                reveal_strlit("pharmacy");
            }
            Ok(Self::Pharmacy)
        } else if str_eq(code, "physiotherapist") {
            proof {
                reveal_strlit("physiotherapist");
            }
            Ok(Self::Physiotherapist)
        } else if str_eq(code, "plumber") {
            proof {
                reveal_strlit("plumber");
            }
            Ok(Self::Plumber)
        } else if str_eq(code, "plus_code") {
            proof {
                reveal_strlit("plus_code");
            }
            Ok(Self::PlusCode)
        } else if str_eq(code, "police") {
            proof {
                reveal_strlit("police");
            }
            Ok(Self::Police)
        } else if str_eq(code, "post_office") {
            proof {
                reveal_strlit("post_office");
            }
            Ok(Self::PostOffice)
        } else if str_eq(code, "primary_school") {
            proof {
                reveal_strlit("primary_school");
            }
            Ok(Self::PrimarySchool)
        } else if str_eq(code, "real_estate_agency") {
            proof {
                reveal_strlit("real_estate_agency");
            }
            Ok(Self::RealEstateAgency)
        } else if str_eq(code, "restaurant") {
            proof {
                reveal_strlit("restaurant");
            }
            Ok(Self::Restaurant)
        } else if str_eq(code, "roofing_contractor") {
            proof {
                reveal_strlit("roofing_contractor");
            }
            Ok(Self::RoofingContractor)
        } else if str_eq(code, "rv_park") {
            proof {
                reveal_strlit("rv_park");
            }
            Ok(Self::RvPark)
        } else if str_eq(code, "school") {
            proof {
                reveal_strlit("school");
            }
            Ok(Self::School)
        } else if str_eq(code, "secondary_school") {
            proof {
                reveal_strlit("secondary_school");
            }
            Ok(Self::SecondarySchool)
        } else if str_eq(code, "shoe_store") {
            proof {
                reveal_strlit("shoe_store");
            }
            Ok(Self::ShoeStore)
        } else if str_eq(code, "shopping_mall") {
            proof {
                reveal_strlit("shopping_mall");
            }
            Ok(Self::ShoppingMall)
        } else if str_eq(code, "spa") {
            proof {
                reveal_strlit("spa");
            }
            Ok(Self::Spa)
        } else if str_eq(code, "stadium") {
            proof {
                reveal_strlit("stadium");
            }
            Ok(Self::Stadium)
        } else if str_eq(code, "storage") {
            proof {
                reveal_strlit("storage");
            }
            Ok(Self::Storage)
        } else if str_eq(code, "store") {
            proof {
                reveal_strlit("store");
            }
            Ok(Self::Store)
        } else if str_eq(code, "subway_station") {
            proof {
                reveal_strlit("subway_station");
            }
            Ok(Self::SubwayStation)
        } else if str_eq(code, "supermarket") {
            proof {
                reveal_strlit("supermarket");
            }
            Ok(Self::Supermarket)
        } else if str_eq(code, "synagogue") {
            proof {
                reveal_strlit("synagogue");
            }
            Ok(Self::Synagogue)
        } else if str_eq(code, "taxi_stand") {
            proof {
                reveal_strlit("taxi_stand");
            }
            Ok(Self::TaxiStand)
        } else if str_eq(code, "tourist_attraction") {
            proof {
                reveal_strlit("tourist_attraction");
            }
            Ok(Self::TouristAttraction)
        } else if str_eq(code, "train_station") {
            proof {
                reveal_strlit("train_station");
            }
            Ok(Self::TrainStation)
        } else if str_eq(code, "transit_station") {
            proof {
                reveal_strlit("transit_station");
            }
            Ok(Self::TransitStation)
        } else if str_eq(code, "travel_agency") {
            proof {
                reveal_strlit("travel_agency");
            }
            Ok(Self::TravelAgency)
        } else if str_eq(code, "university") {
            proof {
                reveal_strlit("university");
            }
            Ok(Self::University)
        } else if str_eq(code, "veterinary_care") {
            proof {
                reveal_strlit("veterinary_care");
            }
            Ok(Self::VeterinaryCare)
        } else if str_eq(code, "zoo") {
            proof {
                reveal_strlit("zoo");
            }
            Ok(Self::Zoo)
        } else if str_eq(code, "administrative_area_level_1") {
            proof {
                reveal_strlit("administrative_area_level_1");
            }
            Ok(Self::AdministrativeAreaLevel1)
        } else if str_eq(code, "administrative_area_level_2") {
            proof {
                reveal_strlit("administrative_area_level_2");
            }
            Ok(Self::AdministrativeAreaLevel2)
        } else if str_eq(code, "administrative_area_level_3") {
            proof {
                reveal_strlit("administrative_area_level_3");
            }
            Ok(Self::AdministrativeAreaLevel3)
        } else if str_eq(code, "administrative_area_level_4") {
            proof {
                reveal_strlit("administrative_area_level_4");
            }
            Ok(Self::AdministrativeAreaLevel4)
        } else if str_eq(code, "administrative_area_level_5") {
            proof {
                reveal_strlit("administrative_area_level_5");
            }
            Ok(Self::AdministrativeAreaLevel5)
        } else if str_eq(code, "archipelago") {
            proof {
                reveal_strlit("archipelago");
            }
            Ok(Self::Archipelago)
        } else if str_eq(code, "colloquial_area") {
            proof {
                reveal_strlit("colloquial_area");
            }
            Ok(Self::ColloquialArea)
        } else if str_eq(code, "continent") {
            proof {
                reveal_strlit("continent");
            }
            Ok(Self::Continent)
        } else if str_eq(code, "country") {
            proof {
                reveal_strlit("country");
            }
            Ok(Self::Country)
        } else if str_eq(code, "establishment") {
            proof {
                reveal_strlit("establishment");
            }
            Ok(Self::Establishment)
        } else if str_eq(code, "finance") {
            proof {
                reveal_strlit("finance");
            }
            Ok(Self::Finance)
        } else if str_eq(code, "floor") {
            proof {
                reveal_strlit("floor");
            }
            Ok(Self::Floor)
        } else if str_eq(code, "food") {
            proof {
                reveal_strlit("food");
            }
            Ok(Self::Food)
        } else if str_eq(code, "general_contractor") {
            proof {
                reveal_strlit("general_contractor");
            }
            Ok(Self::GeneralContractor)
        } else if str_eq(code, "geocode") {
            proof {
                reveal_strlit("geocode");
            }
            Ok(Self::Geocode)
        } else if str_eq(code, "health") {
            proof {
                reveal_strlit("health");
            }
            Ok(Self::Health)
        } else if str_eq(code, "intersection") {
            proof {
                reveal_strlit("intersection");
            }
            Ok(Self::Intersection)
        } else if str_eq(code, "locality") {
            proof {
                reveal_strlit("locality");
            }
            Ok(Self::Locality)
        } else if str_eq(code, "natural_feature") {
            proof {
                reveal_strlit("natural_feature");
            }
            Ok(Self::NaturalFeature)
        } else if str_eq(code, "neighborhood") {
            proof {
                reveal_strlit("neighborhood");
            }
            Ok(Self::Neighborhood)
        } else if str_eq(code, "place_of_worship") {
            proof {
                reveal_strlit("place_of_worship");
            }
            Ok(Self::PlaceOfWorship)
        } else if str_eq(code, "point_of_interest") {
            proof {
                reveal_strlit("point_of_interest");
            }
            Ok(Self::PointOfInterest)
        } else if str_eq(code, "political") {
            proof {
                reveal_strlit("political");
            }
            Ok(Self::Political)
        } else if str_eq(code, "post_box") {
            proof {
                reveal_strlit("post_box");
            }
            Ok(Self::PostBox)
        } else if str_eq(code, "postal_code") {
            proof {
                reveal_strlit("postal_code");
            }
            Ok(Self::PostalCode)
        } else if str_eq(code, "postal_code_prefix") {
            proof {
                reveal_strlit("postal_code_prefix");
            }
            Ok(Self::PostalCodePrefix)
        } else if str_eq(code, "postal_code_suffix") {
            proof {
                reveal_strlit("postal_code_suffix");
            }
            Ok(Self::PostalCodeSuffix)
        } else if str_eq(code, "postal_town") {
            proof {
                reveal_strlit("postal_town");
            }
            Ok(Self::PostalTown)
        } else if str_eq(code, "premise") {
            proof {
                reveal_strlit("premise");
            }
            Ok(Self::Premise)
        } else if str_eq(code, "room") {
            proof {
                reveal_strlit("room");
            }
            Ok(Self::Room)
        } else if str_eq(code, "route") {
            proof {
                reveal_strlit("route");
            }
            Ok(Self::Route)
        } else if str_eq(code, "street_address") {
            proof {
                reveal_strlit("street_address");
            }
            Ok(Self::StreetAddress)
        } else if str_eq(code, "street_number") {
            proof {
                reveal_strlit("street_number");
            }
            Ok(Self::StreetNumber)
        } else if str_eq(code, "sublocality") {
            proof {
                reveal_strlit("sublocality");
            }
            Ok(Self::Sublocality)
        } else if str_eq(code, "sublocality_level_1") {
            proof {
                reveal_strlit("sublocality_level_1");
            }
            Ok(Self::SublocalityLevel1)
        } else if str_eq(code, "sublocality_level_2") {
            proof {
                reveal_strlit("sublocality_level_2");
            }
            Ok(Self::SublocalityLevel2)
        } else if str_eq(code, "sublocality_level_3") {
            proof {
                reveal_strlit("sublocality_level_3");
            }
            Ok(Self::SublocalityLevel3)
        } else if str_eq(code, "sublocality_level_4") {
            proof {
                reveal_strlit("sublocality_level_4");
            }
            Ok(Self::SublocalityLevel4)
        } else if str_eq(code, "sublocality_level_5") {
            proof {
                reveal_strlit("sublocality_level_5");
            }
            Ok(Self::SublocalityLevel5)
        } else if str_eq(code, "subpremise") {
            proof {
                reveal_strlit("subpremise");
            }
            Ok(Self::Subpremise)
        } else if str_eq(code, "town_square") {
            proof {
                reveal_strlit("town_square");
            }
            Ok(Self::TownSquare)
        } else if str_eq(code, "address") {
            proof {
                reveal_strlit("address");
            }
            Ok(Self::Address)
        } else if str_eq(code, "regions") {
            proof {
                reveal_strlit("regions");
            }
            Ok(Self::Regions)
        } else if str_eq(code, "cities") {
            proof {
                reveal_strlit("cities");
            }
            Ok(Self::Cities)
        } else {
            Err(Error::InvalidPlaceTypeCode(String::from_str(code)))
        }
    }

    /// Formats a `PlaceType` enum into a string that is presentable to the
    /// end user.
    pub fn display(&self) -> (r: &'static str)
        ensures
            r@ == self.display_spec(),
    {
        match self {
            Self::Accounting => "Accounting",
            Self::Airport => "Airport",
            Self::AmusementPark => "Amusement Park",
            Self::Aquarium => "Aquarium",
            Self::ArtGallery => "Art Gallery",
            Self::Atm => "ATM",
            Self::Bakery => "Bakery",
            Self::Bank => "Bank",
            Self::Bar => "Bar",
            Self::BeautySalon => "Beauty Salon",
            Self::BicycleStore => "Bicycle Store",
            Self::BookStore => "Book Store",
            Self::BowlingAlley => "Bowling Alley",
            Self::BusStation => "Bus Station",
            Self::Cafe => "Café",
            Self::Campground => "Campground",
            Self::CarDealer => "Car Dealer",
            Self::CarRental => "Car Rental",
            Self::CarRepair => "Car Rrepair",
            Self::CarWash => "Car Wash",
            Self::Casino => "Casino",
            Self::Cemetery => "Cemetery",
            Self::Church => "Church",
            Self::CityHall => "City Hall",
            Self::ClothingStore => "Clothing Store",
            Self::ConvenienceStore => "Convenience Store",
            Self::Courthouse => "Courthouse",
            Self::Dentist => "Dentist",
            Self::DepartmentStore => "Department Store",
            Self::Doctor => "Doctor",
            Self::DrugStore => "Drug Store",
            Self::Electrician => "Electrician",
            Self::ElectronicsStore => "Electronics Store",
            Self::Embassy => "Embassy",
            Self::FireStation => "Fire Station",
            Self::Florist => "Florist",
            Self::FuneralHome => "Funeral Home",
            Self::FurnitureStore => "Furniture Store",
            Self::GasStation => "Gas Station",
            Self::GroceryOrSupermarket => "Grocery or Supermarket",
            Self::Gym => "Gym",
            Self::HairCare => "Hair Care",
            Self::HardwareStore => "Hardware Store",
            Self::HinduTemple => "Hindu Temple",
            Self::HomeGoodsStore => "Home Goods Store",
            Self::Hospital => "Hospital",
            Self::InsuranceAgency => "Insurance Agency",
            Self::JewelryStore => "Jewelry Store",
            Self::Laundry => "Laundry",
            Self::Lawyer => "Lawyer",
            Self::Library => "Library",
            Self::LightRailStation => "Light Rail Station",
            Self::LiquorStore => "Liquor Store",
            Self::LocalGovernmentOffice => "Local Government Office",
            Self::Locksmith => "Locksmith",
            Self::Lodging => "Lodging",
            Self::MealDelivery => "Meal Delivery",
            Self::MealTakeaway => "Meal Takeaway",
            Self::Mosque => "Mosque",
            Self::MovieRental => "Movie Rental",
            Self::MovieTheater => "Movie Theater",
            Self::MovingCompany => "Moving Company",
            Self::Museum => "Museum",
            Self::NightClub => "Night Club",
            Self::Painter => "Painter",
            Self::Park => "Park",
            Self::Parking => "Parking",
            Self::PetStore => "Pet Store",
            Self::Pharmacy => "Pharmacy",
            Self::Physiotherapist => "Physiotherapist",
            Self::Plumber => "Plumber",
            Self::PlusCode => "Plus Code",
            Self::Police => "Police",
            Self::PostOffice => "Post Office",
            Self::PrimarySchool => "Primary School",
            Self::RealEstateAgency => "Real Estate Agency",
            Self::Restaurant => "Restaurant",
            Self::RoofingContractor => "Roofing Contractor",
            Self::RvPark => "RV Park",
            Self::School => "School",
            Self::SecondarySchool => "Secondary School",
            Self::ShoeStore => "Shoe Store",
            Self::ShoppingMall => "Shopping Mall",
            Self::Spa => "Spa",
            Self::Stadium => "Stadium",
            Self::Storage => "Storage",
            Self::Store => "Store",
            Self::SubwayStation => "Subway Station",
            Self::Supermarket => "Supermarket",
            Self::Synagogue => "Synagogue",
            Self::TaxiStand => "Taxi Stand",
            Self::TouristAttraction => "Tourist Attraction",
            Self::TrainStation => "Train Station",
            Self::TransitStation => "Transit Station",
            Self::TravelAgency => "Travel Agency",
            Self::University => "University",
            Self::VeterinaryCare => "Veterinary Care",
            Self::Zoo => "Zoo",
            Self::AdministrativeAreaLevel1 => "Administrative Area Level 1",
            Self::AdministrativeAreaLevel2 => "Administrative Area Level 2",
            Self::AdministrativeAreaLevel3 => "Administrative Area Level 3",
            Self::AdministrativeAreaLevel4 => "Administrative Area Level 4",
            Self::AdministrativeAreaLevel5 => "Administrative Area Level 5",
            Self::Archipelago => "Archipelago",
            Self::ColloquialArea => "Colloquial Area",
            Self::Continent => "Continent",
            Self::Country => "Country",
            Self::Establishment => "Establishment",
            Self::Finance => "Finance",
            Self::Floor => "Floor",
            Self::Food => "Food",
            Self::GeneralContractor => "General Contractor",
            Self::Geocode => "Geocode",
            Self::Health => "Health",
            Self::Intersection => "Intersection",
            Self::Locality => "Locality",
            Self::NaturalFeature => "Natural Feature",
            Self::Neighborhood => "Neighborhood",
            Self::PlaceOfWorship => "Place of Worship",
            Self::PointOfInterest => "Point of Interest",
            Self::Political => "Political",
            Self::PostBox => "Post Box",
            Self::PostalCode => "Postal Code",
            Self::PostalCodePrefix => "Postal Code Prefix",
            Self::PostalCodeSuffix => "Postal Code Suffix",
            Self::PostalTown => "Postal Town",
            Self::Premise => "Premise",
            Self::Room => "Room",
            Self::Route => "Route",
            Self::StreetAddress => "Street Address",
            Self::StreetNumber => "Street Number",
            Self::Sublocality => "Sublocality",
            Self::SublocalityLevel1 => "Sublocality Level 1",
            Self::SublocalityLevel2 => "Sublocality Level 2",
            Self::SublocalityLevel3 => "Sublocality Level 3",
            Self::SublocalityLevel4 => "Sublocality Level 4",
            Self::SublocalityLevel5 => "Sublocality Level 5",
            Self::Subpremise => "Subpremise",
            Self::TownSquare => "Town Square",
            Self::Address => "Address",
            Self::Regions => "Regions",
            Self::Cities => "Cities",
        }
    }

    /// The wire form of a list of place types: the codes joined with
    /// commas.
    pub open spec fn csv_spec(place_types: Seq<PlaceType>) -> Seq<char> {
        join_sep(place_types.map_values(|p: PlaceType| p.wire_spec()), seq![','])
    }

    /// Converts a slice of place types to a `String` that contains a
    /// comma-delimited list of place type codes.
    pub fn vec_to_csv(place_types: &[PlaceType]) -> (r: String)
        ensures
            r@ == PlaceType::csv_spec(place_types@),
    {
        let ghost parts = place_types@.map_values(|p: PlaceType| p.wire_spec());
        let mut out = String::new();
        let mut i: usize = 0;
        while i < place_types.len()
            invariant
                0 <= i <= place_types@.len(),
                parts == place_types@.map_values(|p: PlaceType| p.wire_spec()),
                out@ == join_sep(parts.take(i as int), seq![',']),
            decreases place_types@.len() - i,
        {
            if i > 0 {
                out.append(",");
                proof {
                    reveal_strlit(",");
                    assert(","@ =~= seq![',']);
                }
            }
            let p = place_types[i];
            out.append(p.to_wire());
            proof {
                lemma_join_push(parts.take(i as int), seq![','], parts[i as int]);
                assert(parts.take(i as int).push(parts[i as int]) =~= parts.take(i + 1 as int));
            }
            i = i + 1;
        }
        proof {
            assert(parts.take(place_types@.len() as int) =~= parts);
        }
        out
    }
}

impl Default for PlaceType {
    /// Returns a reasonable default variant for the `PlaceType` enum type.
    fn default() -> (r: PlaceType)
        ensures
            r == PlaceType::Locality,
    {
        PlaceType::Locality
    }
}

impl core::str::FromStr for PlaceType {
    type Err = Error;

    /// Gets a `PlaceType` enum from a string that contains a supported
    /// place type code, as [`PlaceType::from_wire`] does.
    fn from_str(code: &str) -> Result<PlaceType, Error> {
        PlaceType::from_wire(code)
    }
}

proof fn lemma_round_trip_group0(v: PlaceType)
    requires
        ({
            ||| v matches PlaceType::Accounting
            ||| v matches PlaceType::Airport
            ||| v matches PlaceType::AmusementPark
            ||| v matches PlaceType::Aquarium
            ||| v matches PlaceType::ArtGallery
            ||| v matches PlaceType::Atm
            ||| v matches PlaceType::Bakery
            ||| v matches PlaceType::Bank
            ||| v matches PlaceType::Bar
            ||| v matches PlaceType::BeautySalon
            ||| v matches PlaceType::BicycleStore
            ||| v matches PlaceType::BookStore
            ||| v matches PlaceType::BowlingAlley
            ||| v matches PlaceType::BusStation
            ||| v matches PlaceType::Cafe
            ||| v matches PlaceType::Campground
            ||| v matches PlaceType::CarDealer
            ||| v matches PlaceType::CarRental
            ||| v matches PlaceType::CarRepair
            ||| v matches PlaceType::CarWash
            ||| v matches PlaceType::Casino
            ||| v matches PlaceType::Cemetery
        }),
    ensures
        PlaceType::from_wire_spec(v.wire_spec()) == Some(v),
{
    match v {
        PlaceType::Accounting => {
            reveal_strlit("accounting");
            assert(v.wire_spec() == "accounting"@);
            assert(PlaceType::from_wire_spec("accounting"@) == Some(PlaceType::Accounting));
            assert(PlaceType::from_wire_spec(v.wire_spec()) == Some(v));
        },
        PlaceType::Airport => {
            reveal_strlit("airport");
            assert(v.wire_spec() == "airport"@);
            assert(PlaceType::from_wire_spec("airport"@) == Some(PlaceType::Airport));
            assert(PlaceType::from_wire_spec(v.wire_spec()) == Some(v));
        },
        PlaceType::AmusementPark => {
            reveal_strlit("amusement_park");
            assert(v.wire_spec() == "amusement_park"@);
            assert(PlaceType::from_wire_spec("amusement_park"@) == Some(PlaceType::AmusementPark));
            assert(PlaceType::from_wire_spec(v.wire_spec()) == Some(v));
        },
        PlaceType::Aquarium => {
            reveal_strlit("aquarium");
            assert(v.wire_spec() == "aquarium"@);
            assert(PlaceType::from_wire_spec("aquarium"@) == Some(PlaceType::Aquarium));
            assert(PlaceType::from_wire_spec(v.wire_spec()) == Some(v));
        },
        PlaceType::ArtGallery => {
            reveal_strlit("art_gallery");
            assert(v.wire_spec() == "art_gallery"@);
            assert(PlaceType::from_wire_spec("art_gallery"@) == Some(PlaceType::ArtGallery));
            assert(PlaceType::from_wire_spec(v.wire_spec()) == Some(v));
        },
        PlaceType::Atm => {
            reveal_strlit("atm");
            assert(v.wire_spec() == "atm"@);
            assert(PlaceType::from_wire_spec("atm"@) == Some(PlaceType::Atm));
            assert(PlaceType::from_wire_spec(v.wire_spec()) == Some(v));
        },
        PlaceType::Bakery => {
            reveal_strlit("bakery");
            assert(v.wire_spec() == "bakery"@);
            assert(PlaceType::from_wire_spec("bakery"@) == Some(PlaceType::Bakery));
            assert(PlaceType::from_wire_spec(v.wire_spec()) == Some(v));
        },
        PlaceType::Bank => {
            reveal_strlit("bank");
            assert(v.wire_spec() == "bank"@);
            assert(PlaceType::from_wire_spec("bank"@) == Some(PlaceType::Bank));
            assert(PlaceType::from_wire_spec(v.wire_spec()) == Some(v));
        },
        PlaceType::Bar => {
            reveal_strlit("bar");
            assert(v.wire_spec() == "bar"@);
            reveal_strlit("atm");
            assert("bar"@[0] != "atm"@[0]);
            assert("bar"@ != "atm"@);
            assert(PlaceType::from_wire_spec("bar"@) == Some(PlaceType::Bar));
            assert(PlaceType::from_wire_spec(v.wire_spec()) == Some(v));
        },
        PlaceType::BeautySalon => {
            reveal_strlit("beauty_salon");
            assert(v.wire_spec() == "beauty_salon"@);
            assert(PlaceType::from_wire_spec("beauty_salon"@) == Some(PlaceType::BeautySalon));
            assert(PlaceType::from_wire_spec(v.wire_spec()) == Some(v));
        },
        PlaceType::BicycleStore => {
            reveal_strlit("bicycle_store");
            assert(v.wire_spec() == "bicycle_store"@);
            assert(PlaceType::from_wire_spec("bicycle_store"@) == Some(PlaceType::BicycleStore));
            assert(PlaceType::from_wire_spec(v.wire_spec()) == Some(v));
        },
        PlaceType::BookStore => {
            reveal_strlit("book_store");
            assert(v.wire_spec() == "book_store"@);
            reveal_strlit("accounting");
            assert("book_store"@[0] != "accounting"@[0]);
            assert("book_store"@ != "accounting"@);
            assert(PlaceType::from_wire_spec("book_store"@) == Some(PlaceType::BookStore));
            assert(PlaceType::from_wire_spec(v.wire_spec()) == Some(v));
        },
        PlaceType::BowlingAlley => {
            reveal_strlit("bowling_alley");
            assert(v.wire_spec() == "bowling_alley"@);
            reveal_strlit("bicycle_store");
            assert("bowling_alley"@[1] != "bicycle_store"@[1]);
            assert("bowling_alley"@ != "bicycle_store"@);
            assert(PlaceType::from_wire_spec("bowling_alley"@) == Some(PlaceType::BowlingAlley));
            assert(PlaceType::from_wire_spec(v.wire_spec()) == Some(v));
        },
        PlaceType::BusStation => {
            reveal_strlit("bus_station");
            assert(v.wire_spec() == "bus_station"@);
            reveal_strlit("art_gallery");
            assert("bus_station"@[0] != "art_gallery"@[0]);
            assert("bus_station"@ != "art_gallery"@);
            assert(PlaceType::from_wire_spec("bus_station"@) == Some(PlaceType::BusStation));
            assert(PlaceType::from_wire_spec(v.wire_spec()) == Some(v));
        },
        PlaceType::Cafe => {
            reveal_strlit("cafe");
            assert(v.wire_spec() == "cafe"@);
            reveal_strlit("bank");
            assert("cafe"@[0] != "bank"@[0]);
            assert("cafe"@ != "bank"@);
            assert(PlaceType::from_wire_spec("cafe"@) == Some(PlaceType::Cafe));
            assert(PlaceType::from_wire_spec(v.wire_spec()) == Some(v));
        },
        PlaceType::Campground => {
            reveal_strlit("campground");
            assert(v.wire_spec() == "campground"@);
            reveal_strlit("accounting");
            assert("campground"@[0] != "accounting"@[0]);
            assert("campground"@ != "accounting"@);
            reveal_strlit("book_store");
            assert("campground"@[0] != "book_store"@[0]);
            assert("campground"@ != "book_store"@);
            assert(PlaceType::from_wire_spec("campground"@) == Some(PlaceType::Campground));
            assert(PlaceType::from_wire_spec(v.wire_spec()) == Some(v));
        },
        PlaceType::CarDealer => {
            reveal_strlit("car_dealer");
            assert(v.wire_spec() == "car_dealer"@);
            reveal_strlit("accounting");
            assert("car_dealer"@[0] != "accounting"@[0]);
            assert("car_dealer"@ != "accounting"@);
            reveal_strlit("book_store");
            assert("car_dealer"@[0] != "book_store"@[0]);
            assert("car_dealer"@ != "book_store"@);
            reveal_strlit("campground");
            assert("car_dealer"@[2] != "campground"@[2]);
            assert("car_dealer"@ != "campground"@);
            assert(PlaceType::from_wire_spec("car_dealer"@) == Some(PlaceType::CarDealer));
            assert(PlaceType::from_wire_spec(v.wire_spec()) == Some(v));
        },
        PlaceType::CarRental => {
            reveal_strlit("car_rental");
            assert(v.wire_spec() == "car_rental"@);
            reveal_strlit("accounting");
            assert("car_rental"@[0] != "accounting"@[0]);
            assert("car_rental"@ != "accounting"@);
            reveal_strlit("book_store");
            assert("car_rental"@[0] != "book_store"@[0]);
            assert("car_rental"@ != "book_store"@);
            reveal_strlit("campground");
            assert("car_rental"@[2] != "campground"@[2]);
            assert("car_rental"@ != "campground"@);
            reveal_strlit("car_dealer");
            assert("car_rental"@[4] != "car_dealer"@[4]);
            assert("car_rental"@ != "car_dealer"@);
            assert(PlaceType::from_wire_spec("car_rental"@) == Some(PlaceType::CarRental));
            assert(PlaceType::from_wire_spec(v.wire_spec()) == Some(v));
        },
        PlaceType::CarRepair => {
            reveal_strlit("car_repair");
            assert(v.wire_spec() == "car_repair"@);
            reveal_strlit("accounting");
            assert("car_repair"@[0] != "accounting"@[0]);
            assert("car_repair"@ != "accounting"@);
            reveal_strlit("book_store");
            assert("car_repair"@[0] != "book_store"@[0]);
            assert("car_repair"@ != "book_store"@);
            reveal_strlit("campground");
            assert("car_repair"@[2] != "campground"@[2]);
            assert("car_repair"@ != "campground"@);
            reveal_strlit("car_dealer");
            assert("car_repair"@[4] != "car_dealer"@[4]);
            assert("car_repair"@ != "car_dealer"@);
            reveal_strlit("car_rental");
            assert("car_repair"@[6] != "car_rental"@[6]);
            assert("car_repair"@ != "car_rental"@);
            assert(PlaceType::from_wire_spec("car_repair"@) == Some(PlaceType::CarRepair));
            assert(PlaceType::from_wire_spec(v.wire_spec()) == Some(v));
        },
        PlaceType::CarWash => {
            reveal_strlit("car_wash");
            assert(v.wire_spec() == "car_wash"@);
            reveal_strlit("aquarium");
            assert("car_wash"@[0] != "aquarium"@[0]);
            assert("car_wash"@ != "aquarium"@);
            assert(PlaceType::from_wire_spec("car_wash"@) == Some(PlaceType::CarWash));
            assert(PlaceType::from_wire_spec(v.wire_spec()) == Some(v));
        },
        PlaceType::Casino => {
            reveal_strlit("casino");
            assert(v.wire_spec() == "casino"@);
            reveal_strlit("bakery");
            assert("casino"@[0] != "bakery"@[0]);
            assert("casino"@ != "bakery"@);
            assert(PlaceType::from_wire_spec("casino"@) == Some(PlaceType::Casino));
            assert(PlaceType::from_wire_spec(v.wire_spec()) == Some(v));
        },
        PlaceType::Cemetery => {
            reveal_strlit("cemetery");
            assert(v.wire_spec() == "cemetery"@);
            reveal_strlit("aquarium");
            assert("cemetery"@[0] != "aquarium"@[0]);
            assert("cemetery"@ != "aquarium"@);
            reveal_strlit("car_wash");
            assert("cemetery"@[1] != "car_wash"@[1]);
            assert("cemetery"@ != "car_wash"@);
            assert(PlaceType::from_wire_spec("cemetery"@) == Some(PlaceType::Cemetery));
            assert(PlaceType::from_wire_spec(v.wire_spec()) == Some(v));
        },
        _ => {},
    }
}

proof fn lemma_round_trip_group1(v: PlaceType)
    requires
        ({
            ||| v matches PlaceType::Church
            ||| v matches PlaceType::CityHall
            ||| v matches PlaceType::ClothingStore
            ||| v matches PlaceType::ConvenienceStore
            ||| v matches PlaceType::Courthouse
            ||| v matches PlaceType::Dentist
            ||| v matches PlaceType::DepartmentStore
            ||| v matches PlaceType::Doctor
            ||| v matches PlaceType::DrugStore
            ||| v matches PlaceType::Electrician
            ||| v matches PlaceType::ElectronicsStore
            ||| v matches PlaceType::Embassy
            ||| v matches PlaceType::FireStation
            ||| v matches PlaceType::Florist
            ||| v matches PlaceType::FuneralHome
            ||| v matches PlaceType::FurnitureStore
            ||| v matches PlaceType::GasStation
            ||| v matches PlaceType::GroceryOrSupermarket
        }),
    ensures
        PlaceType::from_wire_spec(v.wire_spec()) == Some(v),
{
    match v {
        PlaceType::Church => {
            reveal_strlit("church");
            assert(v.wire_spec() == "church"@);
            reveal_strlit("bakery");
            assert("church"@[0] != "bakery"@[0]);
            assert("church"@ != "bakery"@);
            reveal_strlit("casino");
            assert("church"@[1] != "casino"@[1]);
            assert("church"@ != "casino"@);
            assert(PlaceType::from_wire_spec("church"@) == Some(PlaceType::Church));
            assert(PlaceType::from_wire_spec(v.wire_spec()) == Some(v));
        },
        PlaceType::CityHall => {
            reveal_strlit("city_hall");
            assert(v.wire_spec() == "city_hall"@);
            assert(PlaceType::from_wire_spec("city_hall"@) == Some(PlaceType::CityHall));
            assert(PlaceType::from_wire_spec(v.wire_spec()) == Some(v));
        },
        PlaceType::ClothingStore => {
            reveal_strlit("clothing_store");
            assert(v.wire_spec() == "clothing_store"@);
            reveal_strlit("amusement_park");
            assert("clothing_store"@[0] != "amusement_park"@[0]);
            assert("clothing_store"@ != "amusement_park"@);
            assert(PlaceType::from_wire_spec("clothing_store"@) == Some(PlaceType::ClothingStore));
            assert(PlaceType::from_wire_spec(v.wire_spec()) == Some(v));
        },
        PlaceType::ConvenienceStore => {
            reveal_strlit("convenience_store");
            assert(v.wire_spec() == "convenience_store"@);
            assert(PlaceType::from_wire_spec("convenience_store"@) == Some(PlaceType::ConvenienceStore));
            assert(PlaceType::from_wire_spec(v.wire_spec()) == Some(v));
        },
        PlaceType::Courthouse => {
            reveal_strlit("courthouse");
            assert(v.wire_spec() == "courthouse"@);
            reveal_strlit("accounting");
            assert("courthouse"@[0] != "accounting"@[0]);
            assert("courthouse"@ != "accounting"@);
            reveal_strlit("book_store");
            assert("courthouse"@[0] != "book_store"@[0]);
            assert("courthouse"@ != "book_store"@);
            reveal_strlit("campground");
            assert("courthouse"@[1] != "campground"@[1]);
            assert("courthouse"@ != "campground"@);
            reveal_strlit("car_dealer");
            assert("courthouse"@[1] != "car_dealer"@[1]);
            assert("courthouse"@ != "car_dealer"@);
            reveal_strlit("car_rental");
            assert("courthouse"@[1] != "car_rental"@[1]);
            assert("courthouse"@ != "car_rental"@);
            reveal_strlit("car_repair");
            assert("courthouse"@[1] != "car_repair"@[1]);
            assert("courthouse"@ != "car_repair"@);
            assert(PlaceType::from_wire_spec("courthouse"@) == Some(PlaceType::Courthouse));
            assert(PlaceType::from_wire_spec(v.wire_spec()) == Some(v));
        },
        PlaceType::Dentist => {
            reveal_strlit("dentist");
            assert(v.wire_spec() == "dentist"@);
            reveal_strlit("airport");
            assert("dentist"@[0] != "airport"@[0]);
            assert("dentist"@ != "airport"@);
            assert(PlaceType::from_wire_spec("dentist"@) == Some(PlaceType::Dentist));
            assert(PlaceType::from_wire_spec(v.wire_spec()) == Some(v));
        },
        PlaceType::DepartmentStore => {
            reveal_strlit("department_store");
            assert(v.wire_spec() == "department_store"@);
            assert(PlaceType::from_wire_spec("department_store"@) == Some(PlaceType::DepartmentStore));
            assert(PlaceType::from_wire_spec(v.wire_spec()) == Some(v));
        },
        PlaceType::Doctor => {
            reveal_strlit("doctor");
            assert(v.wire_spec() == "doctor"@);
            reveal_strlit("bakery");
            assert("doctor"@[0] != "bakery"@[0]);
            assert("doctor"@ != "bakery"@);
            reveal_strlit("casino");
            assert("doctor"@[0] != "casino"@[0]);
            assert("doctor"@ != "casino"@);
            reveal_strlit("church");
            assert("doctor"@[0] != "church"@[0]);
            assert("doctor"@ != "church"@);
            assert(PlaceType::from_wire_spec("doctor"@) == Some(PlaceType::Doctor));
            assert(PlaceType::from_wire_spec(v.wire_spec()) == Some(v));
        },
        PlaceType::DrugStore => {
            reveal_strlit("drugstore");
            assert(v.wire_spec() == "drugstore"@);
            reveal_strlit("city_hall");
            assert("drugstore"@[0] != "city_hall"@[0]);
            assert("drugstore"@ != "city_hall"@);
            assert(PlaceType::from_wire_spec("drugstore"@) == Some(PlaceType::DrugStore));
            assert(PlaceType::from_wire_spec(v.wire_spec()) == Some(v));
        },
        PlaceType::Electrician => {
            reveal_strlit("electrician");
            assert(v.wire_spec() == "electrician"@);
            reveal_strlit("art_gallery");
            assert("electrician"@[0] != "art_gallery"@[0]);
            assert("electrician"@ != "art_gallery"@);
            reveal_strlit("bus_station");
            assert("electrician"@[0] != "bus_station"@[0]);
            assert("electrician"@ != "bus_station"@);
            assert(PlaceType::from_wire_spec("electrician"@) == Some(PlaceType::Electrician));
            assert(PlaceType::from_wire_spec(v.wire_spec()) == Some(v));
        },
        PlaceType::ElectronicsStore => {
            reveal_strlit("electronics_store");
            assert(v.wire_spec() == "electronics_store"@);
            reveal_strlit("convenience_store");
            assert("electronics_store"@[0] != "convenience_store"@[0]);
            assert("electronics_store"@ != "convenience_store"@);
            assert(PlaceType::from_wire_spec("electronics_store"@) == Some(PlaceType::ElectronicsStore));
            assert(PlaceType::from_wire_spec(v.wire_spec()) == Some(v));
        },
        PlaceType::Embassy => {
            reveal_strlit("embassy");
            assert(v.wire_spec() == "embassy"@);
            reveal_strlit("airport");
            assert("embassy"@[0] != "airport"@[0]);
            assert("embassy"@ != "airport"@);
            reveal_strlit("dentist");
            assert("embassy"@[0] != "dentist"@[0]);
            assert("embassy"@ != "dentist"@);
            assert(PlaceType::from_wire_spec("embassy"@) == Some(PlaceType::Embassy));
            assert(PlaceType::from_wire_spec(v.wire_spec()) == Some(v));
        },
        PlaceType::FireStation => {
            reveal_strlit("fire_station");
            assert(v.wire_spec() == "fire_station"@);
            reveal_strlit("beauty_salon");
            assert("fire_station"@[0] != "beauty_salon"@[0]);
            assert("fire_station"@ != "beauty_salon"@);
            assert(PlaceType::from_wire_spec("fire_station"@) == Some(PlaceType::FireStation));
            assert(PlaceType::from_wire_spec(v.wire_spec()) == Some(v));
        },
        PlaceType::Florist => {
            reveal_strlit("florist");
            assert(v.wire_spec() == "florist"@);
            reveal_strlit("airport");
            assert("florist"@[0] != "airport"@[0]);
            assert("florist"@ != "airport"@);
            reveal_strlit("dentist");
            assert("florist"@[0] != "dentist"@[0]);
            assert("florist"@ != "dentist"@);
            reveal_strlit("embassy");
            assert("florist"@[0] != "embassy"@[0]);
            assert("florist"@ != "embassy"@);
            assert(PlaceType::from_wire_spec("florist"@) == Some(PlaceType::Florist));
            assert(PlaceType::from_wire_spec(v.wire_spec()) == Some(v));
        },
        PlaceType::FuneralHome => {
            reveal_strlit("funeral_home");
            assert(v.wire_spec() == "funeral_home"@);
            reveal_strlit("beauty_salon");
            assert("funeral_home"@[0] != "beauty_salon"@[0]);
            assert("funeral_home"@ != "beauty_salon"@);
            reveal_strlit("fire_station");
            assert("funeral_home"@[1] != "fire_station"@[1]);
            assert("funeral_home"@ != "fire_station"@);
            assert(PlaceType::from_wire_spec("funeral_home"@) == Some(PlaceType::FuneralHome));
            assert(PlaceType::from_wire_spec(v.wire_spec()) == Some(v));
        },
        PlaceType::FurnitureStore => {
            reveal_strlit("furniture_store");
            assert(v.wire_spec() == "furniture_store"@);
            assert(PlaceType::from_wire_spec("furniture_store"@) == Some(PlaceType::FurnitureStore));
            assert(PlaceType::from_wire_spec(v.wire_spec()) == Some(v));
        },
        PlaceType::GasStation => {
            reveal_strlit("gas_station");
            assert(v.wire_spec() == "gas_station"@);
            reveal_strlit("art_gallery");
            assert("gas_station"@[0] != "art_gallery"@[0]);
            assert("gas_station"@ != "art_gallery"@);
            reveal_strlit("bus_station");
            assert("gas_station"@[0] != "bus_station"@[0]);
            assert("gas_station"@ != "bus_station"@);
            reveal_strlit("electrician");
            assert("gas_station"@[0] != "electrician"@[0]);
            assert("gas_station"@ != "electrician"@);
            assert(PlaceType::from_wire_spec("gas_station"@) == Some(PlaceType::GasStation));
            assert(PlaceType::from_wire_spec(v.wire_spec()) == Some(v));
        },
        PlaceType::GroceryOrSupermarket => {
            reveal_strlit("grocery_or_supermarket");
            assert(v.wire_spec() == "grocery_or_supermarket"@);
            assert(PlaceType::from_wire_spec("grocery_or_supermarket"@) == Some(PlaceType::GroceryOrSupermarket));
            assert(PlaceType::from_wire_spec(v.wire_spec()) == Some(v));
        },
        _ => {},
    }
}

proof fn lemma_round_trip_group2(v: PlaceType)
    requires
        ({
            ||| v matches PlaceType::Gym
            ||| v matches PlaceType::HairCare
            ||| v matches PlaceType::HardwareStore
            ||| v matches PlaceType::HinduTemple
            ||| v matches PlaceType::HomeGoodsStore
            ||| v matches PlaceType::Hospital
            ||| v matches PlaceType::InsuranceAgency
            ||| v matches PlaceType::JewelryStore
            ||| v matches PlaceType::Laundry
            ||| v matches PlaceType::Lawyer
            ||| v matches PlaceType::Library
            ||| v matches PlaceType::LightRailStation
        }),
    ensures
        PlaceType::from_wire_spec(v.wire_spec()) == Some(v),
{
    match v {
        PlaceType::Gym => {
            reveal_strlit("gym");
            assert(v.wire_spec() == "gym"@);
            reveal_strlit("atm");
            assert("gym"@[0] != "atm"@[0]);
            assert("gym"@ != "atm"@);
            reveal_strlit("bar");
            assert("gym"@[0] != "bar"@[0]);
            assert("gym"@ != "bar"@);
            assert(PlaceType::from_wire_spec("gym"@) == Some(PlaceType::Gym));
            assert(PlaceType::from_wire_spec(v.wire_spec()) == Some(v));
        },
        PlaceType::HairCare => {
            reveal_strlit("hair_care");
            assert(v.wire_spec() == "hair_care"@);
            reveal_strlit("city_hall");
            assert("hair_care"@[0] != "city_hall"@[0]);
            assert("hair_care"@ != "city_hall"@);
            reveal_strlit("drugstore");
            assert("hair_care"@[0] != "drugstore"@[0]);
            assert("hair_care"@ != "drugstore"@);
            assert(PlaceType::from_wire_spec("hair_care"@) == Some(PlaceType::HairCare));
            assert(PlaceType::from_wire_spec(v.wire_spec()) == Some(v));
        },
        PlaceType::HardwareStore => {
            reveal_strlit("hardware_store");
            assert(v.wire_spec() == "hardware_store"@);
            reveal_strlit("amusement_park");
            assert("hardware_store"@[0] != "amusement_park"@[0]);
            assert("hardware_store"@ != "amusement_park"@);
            reveal_strlit("clothing_store");
            assert("hardware_store"@[0] != "clothing_store"@[0]);
            assert("hardware_store"@ != "clothing_store"@);
            assert(PlaceType::from_wire_spec("hardware_store"@) == Some(PlaceType::HardwareStore));
            assert(PlaceType::from_wire_spec(v.wire_spec()) == Some(v));
        },
        PlaceType::HinduTemple => {
            reveal_strlit("hindu_temple");
            assert(v.wire_spec() == "hindu_temple"@);
            reveal_strlit("beauty_salon");
            assert("hindu_temple"@[0] != "beauty_salon"@[0]);
            assert("hindu_temple"@ != "beauty_salon"@);
            reveal_strlit("fire_station");
            assert("hindu_temple"@[0] != "fire_station"@[0]);
            assert("hindu_temple"@ != "fire_station"@);
            reveal_strlit("funeral_home");
            assert("hindu_temple"@[0] != "funeral_home"@[0]);
            assert("hindu_temple"@ != "funeral_home"@);
            assert(PlaceType::from_wire_spec("hindu_temple"@) == Some(PlaceType::HinduTemple));
            assert(PlaceType::from_wire_spec(v.wire_spec()) == Some(v));
        },
        PlaceType::HomeGoodsStore => {
            reveal_strlit("home_goods_store");
            assert(v.wire_spec() == "home_goods_store"@);
            reveal_strlit("department_store");
            assert("home_goods_store"@[0] != "department_store"@[0]);
            assert("home_goods_store"@ != "department_store"@);
            assert(PlaceType::from_wire_spec("home_goods_store"@) == Some(PlaceType::HomeGoodsStore));
            assert(PlaceType::from_wire_spec(v.wire_spec()) == Some(v));
        },
        PlaceType::Hospital => {
            reveal_strlit("hospital");
            assert(v.wire_spec() == "hospital"@);
            reveal_strlit("aquarium");
            assert("hospital"@[0] != "aquarium"@[0]);
            assert("hospital"@ != "aquarium"@);
            reveal_strlit("car_wash");
            assert("hospital"@[0] != "car_wash"@[0]);
            assert("hospital"@ != "car_wash"@);
            reveal_strlit("cemetery");
            assert("hospital"@[0] != "cemetery"@[0]);
            assert("hospital"@ != "cemetery"@);
            assert(PlaceType::from_wire_spec("hospital"@) == Some(PlaceType::Hospital));
            assert(PlaceType::from_wire_spec(v.wire_spec()) == Some(v));
        },
        PlaceType::InsuranceAgency => {
            reveal_strlit("insurance_agency");
            assert(v.wire_spec() == "insurance_agency"@);
            reveal_strlit("department_store");
            assert("insurance_agency"@[0] != "department_store"@[0]);
            assert("insurance_agency"@ != "department_store"@);
            reveal_strlit("home_goods_store");
            assert("insurance_agency"@[0] != "home_goods_store"@[0]);
            assert("insurance_agency"@ != "home_goods_store"@);
            assert(PlaceType::from_wire_spec("insurance_agency"@) == Some(PlaceType::InsuranceAgency));
            assert(PlaceType::from_wire_spec(v.wire_spec()) == Some(v));
        },
        PlaceType::JewelryStore => {
            reveal_strlit("jewelry_store");
            assert(v.wire_spec() == "jewelry_store"@);
            reveal_strlit("bicycle_store");
            assert("jewelry_store"@[0] != "bicycle_store"@[0]);
            assert("jewelry_store"@ != "bicycle_store"@);
            reveal_strlit("bowling_alley");
            assert("jewelry_store"@[0] != "bowling_alley"@[0]);
            assert("jewelry_store"@ != "bowling_alley"@);
            assert(PlaceType::from_wire_spec("jewelry_store"@) == Some(PlaceType::JewelryStore));
            assert(PlaceType::from_wire_spec(v.wire_spec()) == Some(v));
        },
        PlaceType::Laundry => {
            reveal_strlit("laundry");
            assert(v.wire_spec() == "laundry"@);
            reveal_strlit("airport");
            assert("laundry"@[0] != "airport"@[0]);
            assert("laundry"@ != "airport"@);
            reveal_strlit("dentist");
            assert("laundry"@[0] != "dentist"@[0]);
            assert("laundry"@ != "dentist"@);
            reveal_strlit("embassy");
            assert("laundry"@[0] != "embassy"@[0]);
            assert("laundry"@ != "embassy"@);
            reveal_strlit("florist");
            assert("laundry"@[0] != "florist"@[0]);
            assert("laundry"@ != "florist"@);
            assert(PlaceType::from_wire_spec("laundry"@) == Some(PlaceType::Laundry));
            assert(PlaceType::from_wire_spec(v.wire_spec()) == Some(v));
        },
        PlaceType::Lawyer => {
            reveal_strlit("lawyer");
            assert(v.wire_spec() == "lawyer"@);
            reveal_strlit("bakery");
            assert("lawyer"@[0] != "bakery"@[0]);
            assert("lawyer"@ != "bakery"@);
            reveal_strlit("casino");
            assert("lawyer"@[0] != "casino"@[0]);
            assert("lawyer"@ != "casino"@);
            reveal_strlit("church");
            assert("lawyer"@[0] != "church"@[0]);
            assert("lawyer"@ != "church"@);
            reveal_strlit("doctor");
            assert("lawyer"@[0] != "doctor"@[0]);
            assert("lawyer"@ != "doctor"@);
            assert(PlaceType::from_wire_spec("lawyer"@) == Some(PlaceType::Lawyer));
            assert(PlaceType::from_wire_spec(v.wire_spec()) == Some(v));
        },
        PlaceType::Library => {
            reveal_strlit("library");
            assert(v.wire_spec() == "library"@);
            reveal_strlit("airport");
            assert("library"@[0] != "airport"@[0]);
            assert("library"@ != "airport"@);
            reveal_strlit("dentist");
            assert("library"@[0] != "dentist"@[0]);
            assert("library"@ != "dentist"@);
            reveal_strlit("embassy");
            assert("library"@[0] != "embassy"@[0]);
            assert("library"@ != "embassy"@);
            reveal_strlit("florist");
            assert("library"@[0] != "florist"@[0]);
            assert("library"@ != "florist"@);
            reveal_strlit("laundry");
            assert("library"@[1] != "laundry"@[1]);
            assert("library"@ != "laundry"@);
            assert(PlaceType::from_wire_spec("library"@) == Some(PlaceType::Library));
            assert(PlaceType::from_wire_spec(v.wire_spec()) == Some(v));
        },
        PlaceType::LightRailStation => {
            reveal_strlit("light_rail_station");
            assert(v.wire_spec() == "light_rail_station"@);
            assert(PlaceType::from_wire_spec("light_rail_station"@) == Some(PlaceType::LightRailStation));
            assert(PlaceType::from_wire_spec(v.wire_spec()) == Some(v));
        },
        _ => {},
    }
}

proof fn lemma_round_trip_group3(v: PlaceType)
    requires
        ({
            ||| v matches PlaceType::LiquorStore
            ||| v matches PlaceType::LocalGovernmentOffice
            ||| v matches PlaceType::Locksmith
            ||| v matches PlaceType::Lodging
            ||| v matches PlaceType::MealDelivery
            ||| v matches PlaceType::MealTakeaway
            ||| v matches PlaceType::Mosque
            ||| v matches PlaceType::MovieRental
            ||| v matches PlaceType::MovieTheater
        }),
    ensures
        PlaceType::from_wire_spec(v.wire_spec()) == Some(v),
{
    match v {
        PlaceType::LiquorStore => {
            reveal_strlit("liquor_store");
            assert(v.wire_spec() == "liquor_store"@);
            reveal_strlit("beauty_salon");
            assert("liquor_store"@[0] != "beauty_salon"@[0]);
            assert("liquor_store"@ != "beauty_salon"@);
            reveal_strlit("fire_station");
            assert("liquor_store"@[0] != "fire_station"@[0]);
            assert("liquor_store"@ != "fire_station"@);
            reveal_strlit("funeral_home");
            assert("liquor_store"@[0] != "funeral_home"@[0]);
            assert("liquor_store"@ != "funeral_home"@);
            reveal_strlit("hindu_temple");
            assert("liquor_store"@[0] != "hindu_temple"@[0]);
            assert("liquor_store"@ != "hindu_temple"@);
            assert(PlaceType::from_wire_spec("liquor_store"@) == Some(PlaceType::LiquorStore));
            assert(PlaceType::from_wire_spec(v.wire_spec()) == Some(v));
        },
        PlaceType::LocalGovernmentOffice => {
            reveal_strlit("local_government_office");
            assert(v.wire_spec() == "local_government_office"@);
            assert(PlaceType::from_wire_spec("local_government_office"@) == Some(PlaceType::LocalGovernmentOffice));
            assert(PlaceType::from_wire_spec(v.wire_spec()) == Some(v));
        },
        PlaceType::Locksmith => {
            reveal_strlit("locksmith");
            assert(v.wire_spec() == "locksmith"@);
            reveal_strlit("city_hall");
            assert("locksmith"@[0] != "city_hall"@[0]);
            assert("locksmith"@ != "city_hall"@);
            reveal_strlit("drugstore");
            assert("locksmith"@[0] != "drugstore"@[0]);
            assert("locksmith"@ != "drugstore"@);
            reveal_strlit("hair_care");
            assert("locksmith"@[0] != "hair_care"@[0]);
            assert("locksmith"@ != "hair_care"@);
            assert(PlaceType::from_wire_spec("locksmith"@) == Some(PlaceType::Locksmith));
            assert(PlaceType::from_wire_spec(v.wire_spec()) == Some(v));
        },
        PlaceType::Lodging => {
            reveal_strlit("lodging");
            assert(v.wire_spec() == "lodging"@);
            reveal_strlit("airport");
            assert("lodging"@[0] != "airport"@[0]);
            assert("lodging"@ != "airport"@);
            reveal_strlit("dentist");
            assert("lodging"@[0] != "dentist"@[0]);
            assert("lodging"@ != "dentist"@);
            reveal_strlit("embassy");
            assert("lodging"@[0] != "embassy"@[0]);
            assert("lodging"@ != "embassy"@);
            reveal_strlit("florist");
            assert("lodging"@[0] != "florist"@[0]);
            assert("lodging"@ != "florist"@);
            reveal_strlit("laundry");
            assert("lodging"@[1] != "laundry"@[1]);
            assert("lodging"@ != "laundry"@);
            reveal_strlit("library");
            assert("lodging"@[1] != "library"@[1]);
            assert("lodging"@ != "library"@);
            assert(PlaceType::from_wire_spec("lodging"@) == Some(PlaceType::Lodging));
            assert(PlaceType::from_wire_spec(v.wire_spec()) == Some(v));
        },
        PlaceType::MealDelivery => {
            reveal_strlit("meal_delivery");
            assert(v.wire_spec() == "meal_delivery"@);
            reveal_strlit("bicycle_store");
            assert("meal_delivery"@[0] != "bicycle_store"@[0]);
            assert("meal_delivery"@ != "bicycle_store"@);
            reveal_strlit("bowling_alley");
            assert("meal_delivery"@[0] != "bowling_alley"@[0]);
            assert("meal_delivery"@ != "bowling_alley"@);
            reveal_strlit("jewelry_store");
            assert("meal_delivery"@[0] != "jewelry_store"@[0]);
            assert("meal_delivery"@ != "jewelry_store"@);
            assert(PlaceType::from_wire_spec("meal_delivery"@) == Some(PlaceType::MealDelivery));
            assert(PlaceType::from_wire_spec(v.wire_spec()) == Some(v));
        },
        PlaceType::MealTakeaway => {
            reveal_strlit("meal_takeaway");
            assert(v.wire_spec() == "meal_takeaway"@);
            reveal_strlit("bicycle_store");
            assert("meal_takeaway"@[0] != "bicycle_store"@[0]);
            assert("meal_takeaway"@ != "bicycle_store"@);
            reveal_strlit("bowling_alley");
            assert("meal_takeaway"@[0] != "bowling_alley"@[0]);
            assert("meal_takeaway"@ != "bowling_alley"@);
            reveal_strlit("jewelry_store");
            assert("meal_takeaway"@[0] != "jewelry_store"@[0]);
            assert("meal_takeaway"@ != "jewelry_store"@);
            reveal_strlit("meal_delivery");
            assert("meal_takeaway"@[5] != "meal_delivery"@[5]);
            assert("meal_takeaway"@ != "meal_delivery"@);
            assert(PlaceType::from_wire_spec("meal_takeaway"@) == Some(PlaceType::MealTakeaway));
            assert(PlaceType::from_wire_spec(v.wire_spec()) == Some(v));
        },
        PlaceType::Mosque => {
            reveal_strlit("mosque");
            assert(v.wire_spec() == "mosque"@);
            reveal_strlit("bakery");
            assert("mosque"@[0] != "bakery"@[0]);
            assert("mosque"@ != "bakery"@);
            reveal_strlit("casino");
            assert("mosque"@[0] != "casino"@[0]);
            assert("mosque"@ != "casino"@);
            reveal_strlit("church");
            assert("mosque"@[0] != "church"@[0]);
            assert("mosque"@ != "church"@);
            reveal_strlit("doctor");
            assert("mosque"@[0] != "doctor"@[0]);
            assert("mosque"@ != "doctor"@);
            reveal_strlit("lawyer");
            assert("mosque"@[0] != "lawyer"@[0]);
            assert("mosque"@ != "lawyer"@);
            assert(PlaceType::from_wire_spec("mosque"@) == Some(PlaceType::Mosque));
            assert(PlaceType::from_wire_spec(v.wire_spec()) == Some(v));
        },
        PlaceType::MovieRental => {
            reveal_strlit("movie_rental");
            assert(v.wire_spec() == "movie_rental"@);
            reveal_strlit("beauty_salon");
            assert("movie_rental"@[0] != "beauty_salon"@[0]);
            assert("movie_rental"@ != "beauty_salon"@);
            reveal_strlit("fire_station");
            assert("movie_rental"@[0] != "fire_station"@[0]);
            assert("movie_rental"@ != "fire_station"@);
            reveal_strlit("funeral_home");
            assert("movie_rental"@[0] != "funeral_home"@[0]);
            assert("movie_rental"@ != "funeral_home"@);
            reveal_strlit("hindu_temple");
            assert("movie_rental"@[0] != "hindu_temple"@[0]);
            assert("movie_rental"@ != "hindu_temple"@);
            reveal_strlit("liquor_store");
            assert("movie_rental"@[0] != "liquor_store"@[0]);
            assert("movie_rental"@ != "liquor_store"@);
            assert(PlaceType::from_wire_spec("movie_rental"@) == Some(PlaceType::MovieRental));
            assert(PlaceType::from_wire_spec(v.wire_spec()) == Some(v));
        },
        PlaceType::MovieTheater => {
            reveal_strlit("movie_theater");
            assert(v.wire_spec() == "movie_theater"@);
            reveal_strlit("bicycle_store");
            assert("movie_theater"@[0] != "bicycle_store"@[0]);
            assert("movie_theater"@ != "bicycle_store"@);
            reveal_strlit("bowling_alley");
            assert("movie_theater"@[0] != "bowling_alley"@[0]);
            assert("movie_theater"@ != "bowling_alley"@);
            reveal_strlit("jewelry_store");
            assert("movie_theater"@[0] != "jewelry_store"@[0]);
            assert("movie_theater"@ != "jewelry_store"@);
            reveal_strlit("meal_delivery");
            assert("movie_theater"@[1] != "meal_delivery"@[1]);
            assert("movie_theater"@ != "meal_delivery"@);
            reveal_strlit("meal_takeaway");
            assert("movie_theater"@[1] != "meal_takeaway"@[1]);
            assert("movie_theater"@ != "meal_takeaway"@);
            assert(PlaceType::from_wire_spec("movie_theater"@) == Some(PlaceType::MovieTheater));
            assert(PlaceType::from_wire_spec(v.wire_spec()) == Some(v));
        },
        _ => {},
    }
}

proof fn lemma_round_trip_group4(v: PlaceType)
    requires
        ({
            ||| v matches PlaceType::MovingCompany
            ||| v matches PlaceType::Museum
            ||| v matches PlaceType::NightClub
            ||| v matches PlaceType::Painter
            ||| v matches PlaceType::Park
            ||| v matches PlaceType::Parking
            ||| v matches PlaceType::PetStore
        }),
    ensures
        PlaceType::from_wire_spec(v.wire_spec()) == Some(v),
{
    match v {
        PlaceType::MovingCompany => {
            reveal_strlit("moving_company");
            assert(v.wire_spec() == "moving_company"@);
            reveal_strlit("amusement_park");
            assert("moving_company"@[0] != "amusement_park"@[0]);
            assert("moving_company"@ != "amusement_park"@);
            reveal_strlit("clothing_store");
            assert("moving_company"@[0] != "clothing_store"@[0]);
            assert("moving_company"@ != "clothing_store"@);
            reveal_strlit("hardware_store");
            assert("moving_company"@[0] != "hardware_store"@[0]);
            assert("moving_company"@ != "hardware_store"@);
            assert(PlaceType::from_wire_spec("moving_company"@) == Some(PlaceType::MovingCompany));
            assert(PlaceType::from_wire_spec(v.wire_spec()) == Some(v));
        },
        PlaceType::Museum => {
            reveal_strlit("museum");
            assert(v.wire_spec() == "museum"@);
            reveal_strlit("bakery");
            assert("museum"@[0] != "bakery"@[0]);
            assert("museum"@ != "bakery"@);
            reveal_strlit("casino");
            assert("museum"@[0] != "casino"@[0]);
            assert("museum"@ != "casino"@);
            reveal_strlit("church");
            assert("museum"@[0] != "church"@[0]);
            assert("museum"@ != "church"@);
            reveal_strlit("doctor");
            assert("museum"@[0] != "doctor"@[0]);
            assert("museum"@ != "doctor"@);
            reveal_strlit("lawyer");
            assert("museum"@[0] != "lawyer"@[0]);
            assert("museum"@ != "lawyer"@);
            reveal_strlit("mosque");
            assert("museum"@[1] != "mosque"@[1]);
            assert("museum"@ != "mosque"@);
            assert(PlaceType::from_wire_spec("museum"@) == Some(PlaceType::Museum));
            assert(PlaceType::from_wire_spec(v.wire_spec()) == Some(v));
        },
        PlaceType::NightClub => {
            reveal_strlit("night_club");
            assert(v.wire_spec() == "night_club"@);
            reveal_strlit("accounting");
            assert("night_club"@[0] != "accounting"@[0]);
            assert("night_club"@ != "accounting"@);
            reveal_strlit("book_store");
            assert("night_club"@[0] != "book_store"@[0]);
            assert("night_club"@ != "book_store"@);
            reveal_strlit("campground");
            assert("night_club"@[0] != "campground"@[0]);
            assert("night_club"@ != "campground"@);
            reveal_strlit("car_dealer");
            assert("night_club"@[0] != "car_dealer"@[0]);
            assert("night_club"@ != "car_dealer"@);
            reveal_strlit("car_rental");
            assert("night_club"@[0] != "car_rental"@[0]);
            assert("night_club"@ != "car_rental"@);
            reveal_strlit("car_repair");
            assert("night_club"@[0] != "car_repair"@[0]);
            assert("night_club"@ != "car_repair"@);
            reveal_strlit("courthouse");
            assert("night_club"@[0] != "courthouse"@[0]);
            assert("night_club"@ != "courthouse"@);
            assert(PlaceType::from_wire_spec("night_club"@) == Some(PlaceType::NightClub));
            assert(PlaceType::from_wire_spec(v.wire_spec()) == Some(v));
        },
        PlaceType::Painter => {
            reveal_strlit("painter");
            assert(v.wire_spec() == "painter"@);
            reveal_strlit("airport");
            assert("painter"@[0] != "airport"@[0]);
            assert("painter"@ != "airport"@);
            reveal_strlit("dentist");
            assert("painter"@[0] != "dentist"@[0]);
            assert("painter"@ != "dentist"@);
            reveal_strlit("embassy");
            assert("painter"@[0] != "embassy"@[0]);
            assert("painter"@ != "embassy"@);
            reveal_strlit("florist");
            assert("painter"@[0] != "florist"@[0]);
            assert("painter"@ != "florist"@);
            reveal_strlit("laundry");
            assert("painter"@[0] != "laundry"@[0]);
            assert("painter"@ != "laundry"@);
            reveal_strlit("library");
            assert("painter"@[0] != "library"@[0]);
            assert("painter"@ != "library"@);
            reveal_strlit("lodging");
            assert("painter"@[0] != "lodging"@[0]);
            assert("painter"@ != "lodging"@);
            assert(PlaceType::from_wire_spec("painter"@) == Some(PlaceType::Painter));
            assert(PlaceType::from_wire_spec(v.wire_spec()) == Some(v));
        },
        PlaceType::Park => {
            reveal_strlit("park");
            assert(v.wire_spec() == "park"@);
            reveal_strlit("bank");
            assert("park"@[0] != "bank"@[0]);
            assert("park"@ != "bank"@);
            reveal_strlit("cafe");
            assert("park"@[0] != "cafe"@[0]);
            assert("park"@ != "cafe"@);
            assert(PlaceType::from_wire_spec("park"@) == Some(PlaceType::Park));
            assert(PlaceType::from_wire_spec(v.wire_spec()) == Some(v));
        },
        PlaceType::Parking => {
            reveal_strlit("parking");
            assert(v.wire_spec() == "parking"@);
            reveal_strlit("airport");
            assert("parking"@[0] != "airport"@[0]);
            assert("parking"@ != "airport"@);
            reveal_strlit("dentist");
            assert("parking"@[0] != "dentist"@[0]);
            assert("parking"@ != "dentist"@);
            reveal_strlit("embassy");
            assert("parking"@[0] != "embassy"@[0]);
            assert("parking"@ != "embassy"@);
            reveal_strlit("florist");
            assert("parking"@[0] != "florist"@[0]);
            assert("parking"@ != "florist"@);
            reveal_strlit("laundry");
            assert("parking"@[0] != "laundry"@[0]);
            assert("parking"@ != "laundry"@);
            reveal_strlit("library");
            assert("parking"@[0] != "library"@[0]);
            assert("parking"@ != "library"@);
            reveal_strlit("lodging");
            assert("parking"@[0] != "lodging"@[0]);
            assert("parking"@ != "lodging"@);
            reveal_strlit("painter");
            assert("parking"@[2] != "painter"@[2]);
            assert("parking"@ != "painter"@);
            assert(PlaceType::from_wire_spec("parking"@) == Some(PlaceType::Parking));
            assert(PlaceType::from_wire_spec(v.wire_spec()) == Some(v));
        },
        PlaceType::PetStore => {
            reveal_strlit("pet_store");
            assert(v.wire_spec() == "pet_store"@);
            reveal_strlit("city_hall");
            assert("pet_store"@[0] != "city_hall"@[0]);
            assert("pet_store"@ != "city_hall"@);
            reveal_strlit("drugstore");
            assert("pet_store"@[0] != "drugstore"@[0]);
            assert("pet_store"@ != "drugstore"@);
            reveal_strlit("hair_care");
            assert("pet_store"@[0] != "hair_care"@[0]);
            assert("pet_store"@ != "hair_care"@);
            reveal_strlit("locksmith");
            assert("pet_store"@[0] != "locksmith"@[0]);
            assert("pet_store"@ != "locksmith"@);
            assert(PlaceType::from_wire_spec("pet_store"@) == Some(PlaceType::PetStore));
            assert(PlaceType::from_wire_spec(v.wire_spec()) == Some(v));
        },
        _ => {},
    }
}

proof fn lemma_round_trip_group5(v: PlaceType)
    requires
        ({
            ||| v matches PlaceType::Pharmacy
            ||| v matches PlaceType::Physiotherapist
            ||| v matches PlaceType::Plumber
            ||| v matches PlaceType::PlusCode
            ||| v matches PlaceType::Police
            ||| v matches PlaceType::PostOffice
            ||| v matches PlaceType::PrimarySchool
            ||| v matches PlaceType::RealEstateAgency
        }),
    ensures
        PlaceType::from_wire_spec(v.wire_spec()) == Some(v),
{
    match v {
        PlaceType::Pharmacy => {
            reveal_strlit("pharmacy");
            assert(v.wire_spec() == "pharmacy"@);
            reveal_strlit("aquarium");
            assert("pharmacy"@[0] != "aquarium"@[0]);
            assert("pharmacy"@ != "aquarium"@);
            reveal_strlit("car_wash");
            assert("pharmacy"@[0] != "car_wash"@[0]);
            assert("pharmacy"@ != "car_wash"@);
            reveal_strlit("cemetery");
            assert("pharmacy"@[0] != "cemetery"@[0]);
            assert("pharmacy"@ != "cemetery"@);
            reveal_strlit("hospital");
            assert("pharmacy"@[0] != "hospital"@[0]);
            assert("pharmacy"@ != "hospital"@);
            assert(PlaceType::from_wire_spec("pharmacy"@) == Some(PlaceType::Pharmacy));
            assert(PlaceType::from_wire_spec(v.wire_spec()) == Some(v));
        },
        PlaceType::Physiotherapist => {
            reveal_strlit("physiotherapist");
            assert(v.wire_spec() == "physiotherapist"@);
            reveal_strlit("furniture_store");
            assert("physiotherapist"@[0] != "furniture_store"@[0]);
            assert("physiotherapist"@ != "furniture_store"@);
            assert(PlaceType::from_wire_spec("physiotherapist"@) == Some(PlaceType::Physiotherapist));
            assert(PlaceType::from_wire_spec(v.wire_spec()) == Some(v));
        },
        PlaceType::Plumber => {
            reveal_strlit("plumber");
            assert(v.wire_spec() == "plumber"@);
            reveal_strlit("airport");
            assert("plumber"@[0] != "airport"@[0]);
            assert("plumber"@ != "airport"@);
            reveal_strlit("dentist");
            assert("plumber"@[0] != "dentist"@[0]);
            assert("plumber"@ != "dentist"@);
            reveal_strlit("embassy");
            assert("plumber"@[0] != "embassy"@[0]);
            assert("plumber"@ != "embassy"@);
            reveal_strlit("florist");
            assert("plumber"@[0] != "florist"@[0]);
            assert("plumber"@ != "florist"@);
            reveal_strlit("laundry");
            assert("plumber"@[0] != "laundry"@[0]);
            assert("plumber"@ != "laundry"@);
            reveal_strlit("library");
            assert("plumber"@[0] != "library"@[0]);
            assert("plumber"@ != "library"@);
            reveal_strlit("lodging");
            assert("plumber"@[0] != "lodging"@[0]);
            assert("plumber"@ != "lodging"@);
            reveal_strlit("painter");
            assert("plumber"@[1] != "painter"@[1]);
            assert("plumber"@ != "painter"@);
            reveal_strlit("parking");
            assert("plumber"@[1] != "parking"@[1]);
            assert("plumber"@ != "parking"@);
            assert(PlaceType::from_wire_spec("plumber"@) == Some(PlaceType::Plumber));
            assert(PlaceType::from_wire_spec(v.wire_spec()) == Some(v));
        },
        PlaceType::PlusCode => {
            reveal_strlit("plus_code");
            assert(v.wire_spec() == "plus_code"@);
            reveal_strlit("city_hall");
            assert("plus_code"@[0] != "city_hall"@[0]);
            assert("plus_code"@ != "city_hall"@);
            reveal_strlit("drugstore");
            assert("plus_code"@[0] != "drugstore"@[0]);
            assert("plus_code"@ != "drugstore"@);
            reveal_strlit("hair_care");
            assert("plus_code"@[0] != "hair_care"@[0]);
            assert("plus_code"@ != "hair_care"@);
            reveal_strlit("locksmith");
            assert("plus_code"@[0] != "locksmith"@[0]);
            assert("plus_code"@ != "locksmith"@);
            reveal_strlit("pet_store");
            assert("plus_code"@[1] != "pet_store"@[1]);
            assert("plus_code"@ != "pet_store"@);
            assert(PlaceType::from_wire_spec("plus_code"@) == Some(PlaceType::PlusCode));
            assert(PlaceType::from_wire_spec(v.wire_spec()) == Some(v));
        },
        PlaceType::Police => {
            reveal_strlit("police");
            assert(v.wire_spec() == "police"@);
            reveal_strlit("bakery");
            assert("police"@[0] != "bakery"@[0]);
            assert("police"@ != "bakery"@);
            reveal_strlit("casino");
            assert("police"@[0] != "casino"@[0]);
            assert("police"@ != "casino"@);
            reveal_strlit("church");
            assert("police"@[0] != "church"@[0]);
            assert("police"@ != "church"@);
            reveal_strlit("doctor");
            assert("police"@[0] != "doctor"@[0]);
            assert("police"@ != "doctor"@);
            reveal_strlit("lawyer");
            assert("police"@[0] != "lawyer"@[0]);
            assert("police"@ != "lawyer"@);
            reveal_strlit("mosque");
            assert("police"@[0] != "mosque"@[0]);
            assert("police"@ != "mosque"@);
            reveal_strlit("museum");
            assert("police"@[0] != "museum"@[0]);
            assert("police"@ != "museum"@);
            assert(PlaceType::from_wire_spec("police"@) == Some(PlaceType::Police));
            assert(PlaceType::from_wire_spec(v.wire_spec()) == Some(v));
        },
        PlaceType::PostOffice => {
            reveal_strlit("post_office");
            assert(v.wire_spec() == "post_office"@);
            reveal_strlit("art_gallery");
            assert("post_office"@[0] != "art_gallery"@[0]);
            assert("post_office"@ != "art_gallery"@);
            reveal_strlit("bus_station");
            assert("post_office"@[0] != "bus_station"@[0]);
            assert("post_office"@ != "bus_station"@);
            reveal_strlit("electrician");
            assert("post_office"@[0] != "electrician"@[0]);
            assert("post_office"@ != "electrician"@);
            reveal_strlit("gas_station");
            assert("post_office"@[0] != "gas_station"@[0]);
            assert("post_office"@ != "gas_station"@);
            assert(PlaceType::from_wire_spec("post_office"@) == Some(PlaceType::PostOffice));
            assert(PlaceType::from_wire_spec(v.wire_spec()) == Some(v));
        },
        PlaceType::PrimarySchool => {
            reveal_strlit("primary_school");
            assert(v.wire_spec() == "primary_school"@);
            reveal_strlit("amusement_park");
            assert("primary_school"@[0] != "amusement_park"@[0]);
            assert("primary_school"@ != "amusement_park"@);
            reveal_strlit("clothing_store");
            assert("primary_school"@[0] != "clothing_store"@[0]);
            assert("primary_school"@ != "clothing_store"@);
            reveal_strlit("hardware_store");
            assert("primary_school"@[0] != "hardware_store"@[0]);
            assert("primary_school"@ != "hardware_store"@);
            reveal_strlit("moving_company");
            assert("primary_school"@[0] != "moving_company"@[0]);
            assert("primary_school"@ != "moving_company"@);
            assert(PlaceType::from_wire_spec("primary_school"@) == Some(PlaceType::PrimarySchool));
            assert(PlaceType::from_wire_spec(v.wire_spec()) == Some(v));
        },
        PlaceType::RealEstateAgency => {
            reveal_strlit("real_estate_agency");
            assert(v.wire_spec() == "real_estate_agency"@);
            reveal_strlit("light_rail_station");
            assert("real_estate_agency"@[0] != "light_rail_station"@[0]);
            assert("real_estate_agency"@ != "light_rail_station"@);
            assert(PlaceType::from_wire_spec("real_estate_agency"@) == Some(PlaceType::RealEstateAgency));
            assert(PlaceType::from_wire_spec(v.wire_spec()) == Some(v));
        },
        _ => {},
    }
}

proof fn lemma_round_trip_group6(v: PlaceType)
    requires
        ({
            ||| v matches PlaceType::Restaurant
            ||| v matches PlaceType::RoofingContractor
            ||| v matches PlaceType::RvPark
            ||| v matches PlaceType::School
            ||| v matches PlaceType::SecondarySchool
        }),
    ensures
        PlaceType::from_wire_spec(v.wire_spec()) == Some(v),
{
    match v {
        PlaceType::Restaurant => {
            reveal_strlit("restaurant");
            assert(v.wire_spec() == "restaurant"@);
            reveal_strlit("accounting");
            assert("restaurant"@[0] != "accounting"@[0]);
            assert("restaurant"@ != "accounting"@);
            reveal_strlit("book_store");
            assert("restaurant"@[0] != "book_store"@[0]);
            assert("restaurant"@ != "book_store"@);
            reveal_strlit("campground");
            assert("restaurant"@[0] != "campground"@[0]);
            assert("restaurant"@ != "campground"@);
            reveal_strlit("car_dealer");
            assert("restaurant"@[0] != "car_dealer"@[0]);
            assert("restaurant"@ != "car_dealer"@);
            reveal_strlit("car_rental");
            assert("restaurant"@[0] != "car_rental"@[0]);
            assert("restaurant"@ != "car_rental"@);
            reveal_strlit("car_repair");
            assert("restaurant"@[0] != "car_repair"@[0]);
            assert("restaurant"@ != "car_repair"@);
            reveal_strlit("courthouse");
            assert("restaurant"@[0] != "courthouse"@[0]);
            assert("restaurant"@ != "courthouse"@);
            reveal_strlit("night_club");
            assert("restaurant"@[0] != "night_club"@[0]);
            assert("restaurant"@ != "night_club"@);
            assert(PlaceType::from_wire_spec("restaurant"@) == Some(PlaceType::Restaurant));
            assert(PlaceType::from_wire_spec(v.wire_spec()) == Some(v));
        },
        PlaceType::RoofingContractor => {
            reveal_strlit("roofing_contractor");
            assert(v.wire_spec() == "roofing_contractor"@);
            reveal_strlit("light_rail_station");
            assert("roofing_contractor"@[0] != "light_rail_station"@[0]);
            assert("roofing_contractor"@ != "light_rail_station"@);
            reveal_strlit("real_estate_agency");
            assert("roofing_contractor"@[1] != "real_estate_agency"@[1]);
            assert("roofing_contractor"@ != "real_estate_agency"@);
            assert(PlaceType::from_wire_spec("roofing_contractor"@) == Some(PlaceType::RoofingContractor));
            assert(PlaceType::from_wire_spec(v.wire_spec()) == Some(v));
        },
        PlaceType::RvPark => {
            reveal_strlit("rv_park");
            assert(v.wire_spec() == "rv_park"@);
            reveal_strlit("airport");
            assert("rv_park"@[0] != "airport"@[0]);
            assert("rv_park"@ != "airport"@);
            reveal_strlit("dentist");
            assert("rv_park"@[0] != "dentist"@[0]);
            assert("rv_park"@ != "dentist"@);
            reveal_strlit("embassy");
            assert("rv_park"@[0] != "embassy"@[0]);
            assert("rv_park"@ != "embassy"@);
            reveal_strlit("florist");
            assert("rv_park"@[0] != "florist"@[0]);
            assert("rv_park"@ != "florist"@);
            reveal_strlit("laundry");
            assert("rv_park"@[0] != "laundry"@[0]);
            assert("rv_park"@ != "laundry"@);
            reveal_strlit("library");
            assert("rv_park"@[0] != "library"@[0]);
            assert("rv_park"@ != "library"@);
            reveal_strlit("lodging");
            assert("rv_park"@[0] != "lodging"@[0]);
            assert("rv_park"@ != "lodging"@);
            reveal_strlit("painter");
            assert("rv_park"@[0] != "painter"@[0]);
            assert("rv_park"@ != "painter"@);
            reveal_strlit("parking");
            assert("rv_park"@[0] != "parking"@[0]);
            assert("rv_park"@ != "parking"@);
            reveal_strlit("plumber");
            assert("rv_park"@[0] != "plumber"@[0]);
            assert("rv_park"@ != "plumber"@);
            assert(PlaceType::from_wire_spec("rv_park"@) == Some(PlaceType::RvPark));
            assert(PlaceType::from_wire_spec(v.wire_spec()) == Some(v));
        },
        PlaceType::School => {
            reveal_strlit("school");
            assert(v.wire_spec() == "school"@);
            reveal_strlit("bakery");
            assert("school"@[0] != "bakery"@[0]);
            assert("school"@ != "bakery"@);
            reveal_strlit("casino");
            assert("school"@[0] != "casino"@[0]);
            assert("school"@ != "casino"@);
            reveal_strlit("church");
            assert("school"@[0] != "church"@[0]);
            assert("school"@ != "church"@);
            reveal_strlit("doctor");
            assert("school"@[0] != "doctor"@[0]);
            assert("school"@ != "doctor"@);
            reveal_strlit("lawyer");
            assert("school"@[0] != "lawyer"@[0]);
            assert("school"@ != "lawyer"@);
            reveal_strlit("mosque");
            assert("school"@[0] != "mosque"@[0]);
            assert("school"@ != "mosque"@);
            reveal_strlit("museum");
            assert("school"@[0] != "museum"@[0]);
            assert("school"@ != "museum"@);
            reveal_strlit("police");
            assert("school"@[0] != "police"@[0]);
            assert("school"@ != "police"@);
            assert(PlaceType::from_wire_spec("school"@) == Some(PlaceType::School));
            assert(PlaceType::from_wire_spec(v.wire_spec()) == Some(v));
        },
        PlaceType::SecondarySchool => {
            reveal_strlit("secondary_school");
            assert(v.wire_spec() == "secondary_school"@);
            reveal_strlit("department_store");
            assert("secondary_school"@[0] != "department_store"@[0]);
            assert("secondary_school"@ != "department_store"@);
            reveal_strlit("home_goods_store");
            assert("secondary_school"@[0] != "home_goods_store"@[0]);
            assert("secondary_school"@ != "home_goods_store"@);
            reveal_strlit("insurance_agency");
            assert("secondary_school"@[0] != "insurance_agency"@[0]);
            assert("secondary_school"@ != "insurance_agency"@);
            assert(PlaceType::from_wire_spec("secondary_school"@) == Some(PlaceType::SecondarySchool));
            assert(PlaceType::from_wire_spec(v.wire_spec()) == Some(v));
        },
        _ => {},
    }
}

proof fn lemma_round_trip_group7(v: PlaceType)
    requires
        ({
            ||| v matches PlaceType::ShoeStore
            ||| v matches PlaceType::ShoppingMall
            ||| v matches PlaceType::Spa
            ||| v matches PlaceType::Stadium
        }),
    ensures
        PlaceType::from_wire_spec(v.wire_spec()) == Some(v),
{
    match v {
        PlaceType::ShoeStore => {
            reveal_strlit("shoe_store");
            assert(v.wire_spec() == "shoe_store"@);
            reveal_strlit("accounting");
            assert("shoe_store"@[0] != "accounting"@[0]);
            assert("shoe_store"@ != "accounting"@);
            reveal_strlit("book_store");
            assert("shoe_store"@[0] != "book_store"@[0]);
            assert("shoe_store"@ != "book_store"@);
            reveal_strlit("campground");
            assert("shoe_store"@[0] != "campground"@[0]);
            assert("shoe_store"@ != "campground"@);
            reveal_strlit("car_dealer");
            assert("shoe_store"@[0] != "car_dealer"@[0]);
            assert("shoe_store"@ != "car_dealer"@);
            reveal_strlit("car_rental");
            assert("shoe_store"@[0] != "car_rental"@[0]);
            assert("shoe_store"@ != "car_rental"@);
            reveal_strlit("car_repair");
            assert("shoe_store"@[0] != "car_repair"@[0]);
            assert("shoe_store"@ != "car_repair"@);
            reveal_strlit("courthouse");
            assert("shoe_store"@[0] != "courthouse"@[0]);
            assert("shoe_store"@ != "courthouse"@);
            reveal_strlit("night_club");
            assert("shoe_store"@[0] != "night_club"@[0]);
            assert("shoe_store"@ != "night_club"@);
            reveal_strlit("restaurant");
            assert("shoe_store"@[0] != "restaurant"@[0]);
            assert("shoe_store"@ != "restaurant"@);
            assert(PlaceType::from_wire_spec("shoe_store"@) == Some(PlaceType::ShoeStore));
            assert(PlaceType::from_wire_spec(v.wire_spec()) == Some(v));
        },
        PlaceType::ShoppingMall => {
            reveal_strlit("shopping_mall");
            assert(v.wire_spec() == "shopping_mall"@);
            reveal_strlit("bicycle_store");
            assert("shopping_mall"@[0] != "bicycle_store"@[0]);
            assert("shopping_mall"@ != "bicycle_store"@);
            reveal_strlit("bowling_alley");
            assert("shopping_mall"@[0] != "bowling_alley"@[0]);
            assert("shopping_mall"@ != "bowling_alley"@);
            reveal_strlit("jewelry_store");
            assert("shopping_mall"@[0] != "jewelry_store"@[0]);
            assert("shopping_mall"@ != "jewelry_store"@);
            reveal_strlit("meal_delivery");
            assert("shopping_mall"@[0] != "meal_delivery"@[0]);
            assert("shopping_mall"@ != "meal_delivery"@);
            reveal_strlit("meal_takeaway");
            assert("shopping_mall"@[0] != "meal_takeaway"@[0]);
            assert("shopping_mall"@ != "meal_takeaway"@);
            reveal_strlit("movie_theater");
            assert("shopping_mall"@[0] != "movie_theater"@[0]);
            assert("shopping_mall"@ != "movie_theater"@);
            assert(PlaceType::from_wire_spec("shopping_mall"@) == Some(PlaceType::ShoppingMall));
            assert(PlaceType::from_wire_spec(v.wire_spec()) == Some(v));
        },
        PlaceType::Spa => {
            reveal_strlit("spa");
            assert(v.wire_spec() == "spa"@);
            reveal_strlit("atm");
            assert("spa"@[0] != "atm"@[0]);
            assert("spa"@ != "atm"@);
            reveal_strlit("bar");
            assert("spa"@[0] != "bar"@[0]);
            assert("spa"@ != "bar"@);
            reveal_strlit("gym");
            assert("spa"@[0] != "gym"@[0]);
            assert("spa"@ != "gym"@);
            assert(PlaceType::from_wire_spec("spa"@) == Some(PlaceType::Spa));
            assert(PlaceType::from_wire_spec(v.wire_spec()) == Some(v));
        },
        PlaceType::Stadium => {
            reveal_strlit("stadium");
            assert(v.wire_spec() == "stadium"@);
            reveal_strlit("airport");
            assert("stadium"@[0] != "airport"@[0]);
            assert("stadium"@ != "airport"@);
            reveal_strlit("dentist");
            assert("stadium"@[0] != "dentist"@[0]);
            assert("stadium"@ != "dentist"@);
            reveal_strlit("embassy");
            assert("stadium"@[0] != "embassy"@[0]);
            assert("stadium"@ != "embassy"@);
            reveal_strlit("florist");
            assert("stadium"@[0] != "florist"@[0]);
            assert("stadium"@ != "florist"@);
            reveal_strlit("laundry");
            assert("stadium"@[0] != "laundry"@[0]);
            assert("stadium"@ != "laundry"@);
            reveal_strlit("library");
            assert("stadium"@[0] != "library"@[0]);
            assert("stadium"@ != "library"@);
            reveal_strlit("lodging");
            assert("stadium"@[0] != "lodging"@[0]);
            assert("stadium"@ != "lodging"@);
            reveal_strlit("painter");
            assert("stadium"@[0] != "painter"@[0]);
            assert("stadium"@ != "painter"@);
            reveal_strlit("parking");
            assert("stadium"@[0] != "parking"@[0]);
            assert("stadium"@ != "parking"@);
            reveal_strlit("plumber");
            assert("stadium"@[0] != "plumber"@[0]);
            assert("stadium"@ != "plumber"@);
            reveal_strlit("rv_park");
            assert("stadium"@[0] != "rv_park"@[0]);
            assert("stadium"@ != "rv_park"@);
            assert(PlaceType::from_wire_spec("stadium"@) == Some(PlaceType::Stadium));
            assert(PlaceType::from_wire_spec(v.wire_spec()) == Some(v));
        },
        _ => {},
    }
}

proof fn lemma_round_trip_group8(v: PlaceType)
    requires
        ({
            ||| v matches PlaceType::Storage
            ||| v matches PlaceType::Store
            ||| v matches PlaceType::SubwayStation
            ||| v matches PlaceType::Supermarket
            ||| v matches PlaceType::Synagogue
            ||| v matches PlaceType::TaxiStand
        }),
    ensures
        PlaceType::from_wire_spec(v.wire_spec()) == Some(v),
{
    match v {
        PlaceType::Storage => {
            reveal_strlit("storage");
            assert(v.wire_spec() == "storage"@);
            reveal_strlit("airport");
            assert("storage"@[0] != "airport"@[0]);
            assert("storage"@ != "airport"@);
            reveal_strlit("dentist");
            assert("storage"@[0] != "dentist"@[0]);
            assert("storage"@ != "dentist"@);
            reveal_strlit("embassy");
            assert("storage"@[0] != "embassy"@[0]);
            assert("storage"@ != "embassy"@);
            reveal_strlit("florist");
            assert("storage"@[0] != "florist"@[0]);
            assert("storage"@ != "florist"@);
            reveal_strlit("laundry");
            assert("storage"@[0] != "laundry"@[0]);
            assert("storage"@ != "laundry"@);
            reveal_strlit("library");
            assert("storage"@[0] != "library"@[0]);
            assert("storage"@ != "library"@);
            reveal_strlit("lodging");
            assert("storage"@[0] != "lodging"@[0]);
            assert("storage"@ != "lodging"@);
            reveal_strlit("painter");
            assert("storage"@[0] != "painter"@[0]);
            assert("storage"@ != "painter"@);
            reveal_strlit("parking");
            assert("storage"@[0] != "parking"@[0]);
            assert("storage"@ != "parking"@);
            reveal_strlit("plumber");
            assert("storage"@[0] != "plumber"@[0]);
            assert("storage"@ != "plumber"@);
            reveal_strlit("rv_park");
            assert("storage"@[0] != "rv_park"@[0]);
            assert("storage"@ != "rv_park"@);
            reveal_strlit("stadium");
            assert("storage"@[2] != "stadium"@[2]);
            assert("storage"@ != "stadium"@);
            assert(PlaceType::from_wire_spec("storage"@) == Some(PlaceType::Storage));
            assert(PlaceType::from_wire_spec(v.wire_spec()) == Some(v));
        },
        PlaceType::Store => {
            reveal_strlit("store");
            assert(v.wire_spec() == "store"@);
            assert(PlaceType::from_wire_spec("store"@) == Some(PlaceType::Store));
            assert(PlaceType::from_wire_spec(v.wire_spec()) == Some(v));
        },
        PlaceType::SubwayStation => {
            reveal_strlit("subway_station");
            assert(v.wire_spec() == "subway_station"@);
            reveal_strlit("amusement_park");
            assert("subway_station"@[0] != "amusement_park"@[0]);
            assert("subway_station"@ != "amusement_park"@);
            reveal_strlit("clothing_store");
            assert("subway_station"@[0] != "clothing_store"@[0]);
            assert("subway_station"@ != "clothing_store"@);
            reveal_strlit("hardware_store");
            assert("subway_station"@[0] != "hardware_store"@[0]);
            assert("subway_station"@ != "hardware_store"@);
            reveal_strlit("moving_company");
            assert("subway_station"@[0] != "moving_company"@[0]);
            assert("subway_station"@ != "moving_company"@);
            reveal_strlit("primary_school");
            assert("subway_station"@[0] != "primary_school"@[0]);
            assert("subway_station"@ != "primary_school"@);
            assert(PlaceType::from_wire_spec("subway_station"@) == Some(PlaceType::SubwayStation));
            assert(PlaceType::from_wire_spec(v.wire_spec()) == Some(v));
        },
        PlaceType::Supermarket => {
            reveal_strlit("supermarket");
            assert(v.wire_spec() == "supermarket"@);
            reveal_strlit("art_gallery");
            assert("supermarket"@[0] != "art_gallery"@[0]);
            assert("supermarket"@ != "art_gallery"@);
            reveal_strlit("bus_station");
            assert("supermarket"@[0] != "bus_station"@[0]);
            assert("supermarket"@ != "bus_station"@);
            reveal_strlit("electrician");
            assert("supermarket"@[0] != "electrician"@[0]);
            assert("supermarket"@ != "electrician"@);
            reveal_strlit("gas_station");
            assert("supermarket"@[0] != "gas_station"@[0]);
            assert("supermarket"@ != "gas_station"@);
            reveal_strlit("post_office");
            assert("supermarket"@[0] != "post_office"@[0]);
            assert("supermarket"@ != "post_office"@);
            assert(PlaceType::from_wire_spec("supermarket"@) == Some(PlaceType::Supermarket));
            assert(PlaceType::from_wire_spec(v.wire_spec()) == Some(v));
        },
        PlaceType::Synagogue => {
            reveal_strlit("synagogue");
            assert(v.wire_spec() == "synagogue"@);
            reveal_strlit("city_hall");
            assert("synagogue"@[0] != "city_hall"@[0]);
            assert("synagogue"@ != "city_hall"@);
            reveal_strlit("drugstore");
            assert("synagogue"@[0] != "drugstore"@[0]);
            assert("synagogue"@ != "drugstore"@);
            reveal_strlit("hair_care");
            assert("synagogue"@[0] != "hair_care"@[0]);
            assert("synagogue"@ != "hair_care"@);
            reveal_strlit("locksmith");
            assert("synagogue"@[0] != "locksmith"@[0]);
            assert("synagogue"@ != "locksmith"@);
            reveal_strlit("pet_store");
            assert("synagogue"@[0] != "pet_store"@[0]);
            assert("synagogue"@ != "pet_store"@);
            reveal_strlit("plus_code");
            assert("synagogue"@[0] != "plus_code"@[0]);
            assert("synagogue"@ != "plus_code"@);
            assert(PlaceType::from_wire_spec("synagogue"@) == Some(PlaceType::Synagogue));
            assert(PlaceType::from_wire_spec(v.wire_spec()) == Some(v));
        },
        PlaceType::TaxiStand => {
            reveal_strlit("taxi_stand");
            assert(v.wire_spec() == "taxi_stand"@);
            reveal_strlit("accounting");
            assert("taxi_stand"@[0] != "accounting"@[0]);
            assert("taxi_stand"@ != "accounting"@);
            reveal_strlit("book_store");
            assert("taxi_stand"@[0] != "book_store"@[0]);
            assert("taxi_stand"@ != "book_store"@);
            reveal_strlit("campground");
            assert("taxi_stand"@[0] != "campground"@[0]);
            assert("taxi_stand"@ != "campground"@);
            reveal_strlit("car_dealer");
            assert("taxi_stand"@[0] != "car_dealer"@[0]);
            assert("taxi_stand"@ != "car_dealer"@);
            reveal_strlit("car_rental");
            assert("taxi_stand"@[0] != "car_rental"@[0]);
            assert("taxi_stand"@ != "car_rental"@);
            reveal_strlit("car_repair");
            assert("taxi_stand"@[0] != "car_repair"@[0]);
            assert("taxi_stand"@ != "car_repair"@);
            reveal_strlit("courthouse");
            assert("taxi_stand"@[0] != "courthouse"@[0]);
            assert("taxi_stand"@ != "courthouse"@);
            reveal_strlit("night_club");
            assert("taxi_stand"@[0] != "night_club"@[0]);
            assert("taxi_stand"@ != "night_club"@);
            reveal_strlit("restaurant");
            assert("taxi_stand"@[0] != "restaurant"@[0]);
            assert("taxi_stand"@ != "restaurant"@);
            reveal_strlit("shoe_store");
            assert("taxi_stand"@[0] != "shoe_store"@[0]);
            assert("taxi_stand"@ != "shoe_store"@);
            assert(PlaceType::from_wire_spec("taxi_stand"@) == Some(PlaceType::TaxiStand));
            assert(PlaceType::from_wire_spec(v.wire_spec()) == Some(v));
        },
        _ => {},
    }
}

proof fn lemma_round_trip_group9(v: PlaceType)
    requires
        ({
            ||| v matches PlaceType::TouristAttraction
            ||| v matches PlaceType::TrainStation
            ||| v matches PlaceType::TransitStation
            ||| v matches PlaceType::TravelAgency
            ||| v matches PlaceType::University
            ||| v matches PlaceType::VeterinaryCare
        }),
    ensures
        PlaceType::from_wire_spec(v.wire_spec()) == Some(v),
{
    match v {
        PlaceType::TouristAttraction => {
            reveal_strlit("tourist_attraction");
            assert(v.wire_spec() == "tourist_attraction"@);
            reveal_strlit("light_rail_station");
            assert("tourist_attraction"@[0] != "light_rail_station"@[0]);
            assert("tourist_attraction"@ != "light_rail_station"@);
            reveal_strlit("real_estate_agency");
            assert("tourist_attraction"@[0] != "real_estate_agency"@[0]);
            assert("tourist_attraction"@ != "real_estate_agency"@);
            reveal_strlit("roofing_contractor");
            assert("tourist_attraction"@[0] != "roofing_contractor"@[0]);
            assert("tourist_attraction"@ != "roofing_contractor"@);
            assert(PlaceType::from_wire_spec("tourist_attraction"@) == Some(PlaceType::TouristAttraction));
            assert(PlaceType::from_wire_spec(v.wire_spec()) == Some(v));
        },
        PlaceType::TrainStation => {
            reveal_strlit("train_station");
            assert(v.wire_spec() == "train_station"@);
            reveal_strlit("bicycle_store");
            assert("train_station"@[0] != "bicycle_store"@[0]);
            assert("train_station"@ != "bicycle_store"@);
            reveal_strlit("bowling_alley");
            assert("train_station"@[0] != "bowling_alley"@[0]);
            assert("train_station"@ != "bowling_alley"@);
            reveal_strlit("jewelry_store");
            assert("train_station"@[0] != "jewelry_store"@[0]);
            assert("train_station"@ != "jewelry_store"@);
            reveal_strlit("meal_delivery");
            assert("train_station"@[0] != "meal_delivery"@[0]);
            assert("train_station"@ != "meal_delivery"@);
            reveal_strlit("meal_takeaway");
            assert("train_station"@[0] != "meal_takeaway"@[0]);
            assert("train_station"@ != "meal_takeaway"@);
            reveal_strlit("movie_theater");
            assert("train_station"@[0] != "movie_theater"@[0]);
            assert("train_station"@ != "movie_theater"@);
            reveal_strlit("shopping_mall");
            assert("train_station"@[0] != "shopping_mall"@[0]);
            assert("train_station"@ != "shopping_mall"@);
            assert(PlaceType::from_wire_spec("train_station"@) == Some(PlaceType::TrainStation));
            assert(PlaceType::from_wire_spec(v.wire_spec()) == Some(v));
        },
        PlaceType::TransitStation => {
            reveal_strlit("transit_station");
            assert(v.wire_spec() == "transit_station"@);
            reveal_strlit("furniture_store");
            assert("transit_station"@[0] != "furniture_store"@[0]);
            assert("transit_station"@ != "furniture_store"@);
            reveal_strlit("physiotherapist");
            assert("transit_station"@[0] != "physiotherapist"@[0]);
            assert("transit_station"@ != "physiotherapist"@);
            assert(PlaceType::from_wire_spec("transit_station"@) == Some(PlaceType::TransitStation));
            assert(PlaceType::from_wire_spec(v.wire_spec()) == Some(v));
        },
        PlaceType::TravelAgency => {
            reveal_strlit("travel_agency");
            assert(v.wire_spec() == "travel_agency"@);
            reveal_strlit("bicycle_store");
            assert("travel_agency"@[0] != "bicycle_store"@[0]);
            assert("travel_agency"@ != "bicycle_store"@);
            reveal_strlit("bowling_alley");
            assert("travel_agency"@[0] != "bowling_alley"@[0]);
            assert("travel_agency"@ != "bowling_alley"@);
            reveal_strlit("jewelry_store");
            assert("travel_agency"@[0] != "jewelry_store"@[0]);
            assert("travel_agency"@ != "jewelry_store"@);
            reveal_strlit("meal_delivery");
            assert("travel_agency"@[0] != "meal_delivery"@[0]);
            assert("travel_agency"@ != "meal_delivery"@);
            reveal_strlit("meal_takeaway");
            assert("travel_agency"@[0] != "meal_takeaway"@[0]);
            assert("travel_agency"@ != "meal_takeaway"@);
            reveal_strlit("movie_theater");
            assert("travel_agency"@[0] != "movie_theater"@[0]);
            assert("travel_agency"@ != "movie_theater"@);
            reveal_strlit("shopping_mall");
            assert("travel_agency"@[0] != "shopping_mall"@[0]);
            assert("travel_agency"@ != "shopping_mall"@);
            reveal_strlit("train_station");
            assert("travel_agency"@[3] != "train_station"@[3]);
            assert("travel_agency"@ != "train_station"@);
            assert(PlaceType::from_wire_spec("travel_agency"@) == Some(PlaceType::TravelAgency));
            assert(PlaceType::from_wire_spec(v.wire_spec()) == Some(v));
        },
        PlaceType::University => {
            reveal_strlit("university");
            assert(v.wire_spec() == "university"@);
            reveal_strlit("accounting");
            assert("university"@[0] != "accounting"@[0]);
            assert("university"@ != "accounting"@);
            reveal_strlit("book_store");
            assert("university"@[0] != "book_store"@[0]);
            assert("university"@ != "book_store"@);
            reveal_strlit("campground");
            assert("university"@[0] != "campground"@[0]);
            assert("university"@ != "campground"@);
            reveal_strlit("car_dealer");
            assert("university"@[0] != "car_dealer"@[0]);
            assert("university"@ != "car_dealer"@);
            reveal_strlit("car_rental");
            assert("university"@[0] != "car_rental"@[0]);
            assert("university"@ != "car_rental"@);
            reveal_strlit("car_repair");
            assert("university"@[0] != "car_repair"@[0]);
            assert("university"@ != "car_repair"@);
            reveal_strlit("courthouse");
            assert("university"@[0] != "courthouse"@[0]);
            assert("university"@ != "courthouse"@);
            reveal_strlit("night_club");
            assert("university"@[0] != "night_club"@[0]);
            assert("university"@ != "night_club"@);
            reveal_strlit("restaurant");
            assert("university"@[0] != "restaurant"@[0]);
            assert("university"@ != "restaurant"@);
            reveal_strlit("shoe_store");
            assert("university"@[0] != "shoe_store"@[0]);
            assert("university"@ != "shoe_store"@);
            reveal_strlit("taxi_stand");
            assert("university"@[0] != "taxi_stand"@[0]);
            assert("university"@ != "taxi_stand"@);
            assert(PlaceType::from_wire_spec("university"@) == Some(PlaceType::University));
            assert(PlaceType::from_wire_spec(v.wire_spec()) == Some(v));
        },
        PlaceType::VeterinaryCare => {
            reveal_strlit("veterinary_care");
            assert(v.wire_spec() == "veterinary_care"@);
            reveal_strlit("furniture_store");
            assert("veterinary_care"@[0] != "furniture_store"@[0]);
            assert("veterinary_care"@ != "furniture_store"@);
            reveal_strlit("physiotherapist");
            assert("veterinary_care"@[0] != "physiotherapist"@[0]);
            assert("veterinary_care"@ != "physiotherapist"@);
            reveal_strlit("transit_station");
            assert("veterinary_care"@[0] != "transit_station"@[0]);
            assert("veterinary_care"@ != "transit_station"@);
            assert(PlaceType::from_wire_spec("veterinary_care"@) == Some(PlaceType::VeterinaryCare));
            assert(PlaceType::from_wire_spec(v.wire_spec()) == Some(v));
        },
        _ => {},
    }
}

proof fn lemma_round_trip_group10(v: PlaceType)
    requires
        ({
            ||| v matches PlaceType::Zoo
            ||| v matches PlaceType::AdministrativeAreaLevel1
            ||| v matches PlaceType::AdministrativeAreaLevel2
            ||| v matches PlaceType::AdministrativeAreaLevel3
            ||| v matches PlaceType::AdministrativeAreaLevel4
            ||| v matches PlaceType::AdministrativeAreaLevel5
            ||| v matches PlaceType::Archipelago
            ||| v matches PlaceType::ColloquialArea
            ||| v matches PlaceType::Continent
        }),
    ensures
        PlaceType::from_wire_spec(v.wire_spec()) == Some(v),
{
    match v {
        PlaceType::Zoo => {
            reveal_strlit("zoo");
            assert(v.wire_spec() == "zoo"@);
            reveal_strlit("atm");
            assert("zoo"@[0] != "atm"@[0]);
            assert("zoo"@ != "atm"@);
            reveal_strlit("bar");
            assert("zoo"@[0] != "bar"@[0]);
            assert("zoo"@ != "bar"@);
            reveal_strlit("gym");
            assert("zoo"@[0] != "gym"@[0]);
            assert("zoo"@ != "gym"@);
            reveal_strlit("spa");
            assert("zoo"@[0] != "spa"@[0]);
            assert("zoo"@ != "spa"@);
            assert(PlaceType::from_wire_spec("zoo"@) == Some(PlaceType::Zoo));
            assert(PlaceType::from_wire_spec(v.wire_spec()) == Some(v));
        },
        PlaceType::AdministrativeAreaLevel1 => {
            reveal_strlit("administrative_area_level_1");
            assert(v.wire_spec() == "administrative_area_level_1"@);
            assert(PlaceType::from_wire_spec("administrative_area_level_1"@) == Some(PlaceType::AdministrativeAreaLevel1));
            assert(PlaceType::from_wire_spec(v.wire_spec()) == Some(v));
        },
        PlaceType::AdministrativeAreaLevel2 => {
            reveal_strlit("administrative_area_level_2");
            assert(v.wire_spec() == "administrative_area_level_2"@);
            reveal_strlit("administrative_area_level_1");
            assert("administrative_area_level_2"@[26] != "administrative_area_level_1"@[26]);
            assert("administrative_area_level_2"@ != "administrative_area_level_1"@);
            assert(PlaceType::from_wire_spec("administrative_area_level_2"@) == Some(PlaceType::AdministrativeAreaLevel2));
            assert(PlaceType::from_wire_spec(v.wire_spec()) == Some(v));
        },
        PlaceType::AdministrativeAreaLevel3 => {
            reveal_strlit("administrative_area_level_3");
            assert(v.wire_spec() == "administrative_area_level_3"@);
            reveal_strlit("administrative_area_level_1");
            assert("administrative_area_level_3"@[26] != "administrative_area_level_1"@[26]);
            assert("administrative_area_level_3"@ != "administrative_area_level_1"@);
            reveal_strlit("administrative_area_level_2");
            assert("administrative_area_level_3"@[26] != "administrative_area_level_2"@[26]);
            assert("administrative_area_level_3"@ != "administrative_area_level_2"@);
            assert(PlaceType::from_wire_spec("administrative_area_level_3"@) == Some(PlaceType::AdministrativeAreaLevel3));
            assert(PlaceType::from_wire_spec(v.wire_spec()) == Some(v));
        },
        PlaceType::AdministrativeAreaLevel4 => {
            reveal_strlit("administrative_area_level_4");
            assert(v.wire_spec() == "administrative_area_level_4"@);
            reveal_strlit("administrative_area_level_1");
            assert("administrative_area_level_4"@[26] != "administrative_area_level_1"@[26]);
            assert("administrative_area_level_4"@ != "administrative_area_level_1"@);
            reveal_strlit("administrative_area_level_2");
            assert("administrative_area_level_4"@[26] != "administrative_area_level_2"@[26]);
            assert("administrative_area_level_4"@ != "administrative_area_level_2"@);
            reveal_strlit("administrative_area_level_3");
            assert("administrative_area_level_4"@[26] != "administrative_area_level_3"@[26]);
            assert("administrative_area_level_4"@ != "administrative_area_level_3"@);
            assert(PlaceType::from_wire_spec("administrative_area_level_4"@) == Some(PlaceType::AdministrativeAreaLevel4));
            assert(PlaceType::from_wire_spec(v.wire_spec()) == Some(v));
        },
        PlaceType::AdministrativeAreaLevel5 => {
            reveal_strlit("administrative_area_level_5");
            assert(v.wire_spec() == "administrative_area_level_5"@);
            reveal_strlit("administrative_area_level_1");
            assert("administrative_area_level_5"@[26] != "administrative_area_level_1"@[26]);
            assert("administrative_area_level_5"@ != "administrative_area_level_1"@);
            reveal_strlit("administrative_area_level_2");
            assert("administrative_area_level_5"@[26] != "administrative_area_level_2"@[26]);
            assert("administrative_area_level_5"@ != "administrative_area_level_2"@);
            reveal_strlit("administrative_area_level_3");
            assert("administrative_area_level_5"@[26] != "administrative_area_level_3"@[26]);
            assert("administrative_area_level_5"@ != "administrative_area_level_3"@);
            reveal_strlit("administrative_area_level_4");
            assert("administrative_area_level_5"@[26] != "administrative_area_level_4"@[26]);
            assert("administrative_area_level_5"@ != "administrative_area_level_4"@);
            assert(PlaceType::from_wire_spec("administrative_area_level_5"@) == Some(PlaceType::AdministrativeAreaLevel5));
            assert(PlaceType::from_wire_spec(v.wire_spec()) == Some(v));
        },
        PlaceType::Archipelago => {
            reveal_strlit("archipelago");
            assert(v.wire_spec() == "archipelago"@);
            reveal_strlit("art_gallery");
            assert("archipelago"@[2] != "art_gallery"@[2]);
            assert("archipelago"@ != "art_gallery"@);
            reveal_strlit("bus_station");
            assert("archipelago"@[0] != "bus_station"@[0]);
            assert("archipelago"@ != "bus_station"@);
            reveal_strlit("electrician");
            assert("archipelago"@[0] != "electrician"@[0]);
            assert("archipelago"@ != "electrician"@);
            reveal_strlit("gas_station");
            assert("archipelago"@[0] != "gas_station"@[0]);
            assert("archipelago"@ != "gas_station"@);
            reveal_strlit("post_office");
            assert("archipelago"@[0] != "post_office"@[0]);
            assert("archipelago"@ != "post_office"@);
            reveal_strlit("supermarket");
            assert("archipelago"@[0] != "supermarket"@[0]);
            assert("archipelago"@ != "supermarket"@);
            assert(PlaceType::from_wire_spec("archipelago"@) == Some(PlaceType::Archipelago));
            assert(PlaceType::from_wire_spec(v.wire_spec()) == Some(v));
        },
        PlaceType::ColloquialArea => {
            reveal_strlit("colloquial_area");
            assert(v.wire_spec() == "colloquial_area"@);
            reveal_strlit("furniture_store");
            assert("colloquial_area"@[0] != "furniture_store"@[0]);
            assert("colloquial_area"@ != "furniture_store"@);
            reveal_strlit("physiotherapist");
            assert("colloquial_area"@[0] != "physiotherapist"@[0]);
            assert("colloquial_area"@ != "physiotherapist"@);
            reveal_strlit("transit_station");
            assert("colloquial_area"@[0] != "transit_station"@[0]);
            assert("colloquial_area"@ != "transit_station"@);
            reveal_strlit("veterinary_care");
            assert("colloquial_area"@[0] != "veterinary_care"@[0]);
            assert("colloquial_area"@ != "veterinary_care"@);
            assert(PlaceType::from_wire_spec("colloquial_area"@) == Some(PlaceType::ColloquialArea));
            assert(PlaceType::from_wire_spec(v.wire_spec()) == Some(v));
        },
        PlaceType::Continent => {
            reveal_strlit("continent");
            assert(v.wire_spec() == "continent"@);
            reveal_strlit("city_hall");
            assert("continent"@[1] != "city_hall"@[1]);
            assert("continent"@ != "city_hall"@);
            reveal_strlit("drugstore");
            assert("continent"@[0] != "drugstore"@[0]);
            assert("continent"@ != "drugstore"@);
            reveal_strlit("hair_care");
            assert("continent"@[0] != "hair_care"@[0]);
            assert("continent"@ != "hair_care"@);
            reveal_strlit("locksmith");
            assert("continent"@[0] != "locksmith"@[0]);
            assert("continent"@ != "locksmith"@);
            reveal_strlit("pet_store");
            assert("continent"@[0] != "pet_store"@[0]);
            assert("continent"@ != "pet_store"@);
            reveal_strlit("plus_code");
            assert("continent"@[0] != "plus_code"@[0]);
            assert("continent"@ != "plus_code"@);
            reveal_strlit("synagogue");
            assert("continent"@[0] != "synagogue"@[0]);
            assert("continent"@ != "synagogue"@);
            assert(PlaceType::from_wire_spec("continent"@) == Some(PlaceType::Continent));
            assert(PlaceType::from_wire_spec(v.wire_spec()) == Some(v));
        },
        _ => {},
    }
}

proof fn lemma_round_trip_group11(v: PlaceType)
    requires
        ({
            ||| v matches PlaceType::Country
            ||| v matches PlaceType::Establishment
            ||| v matches PlaceType::Finance
            ||| v matches PlaceType::Floor
        }),
    ensures
        PlaceType::from_wire_spec(v.wire_spec()) == Some(v),
{
    match v {
        PlaceType::Country => {
            reveal_strlit("country");
            assert(v.wire_spec() == "country"@);
            reveal_strlit("airport");
            assert("country"@[0] != "airport"@[0]);
            assert("country"@ != "airport"@);
            reveal_strlit("dentist");
            assert("country"@[0] != "dentist"@[0]);
            assert("country"@ != "dentist"@);
            reveal_strlit("embassy");
            assert("country"@[0] != "embassy"@[0]);
            assert("country"@ != "embassy"@);
            reveal_strlit("florist");
            assert("country"@[0] != "florist"@[0]);
            assert("country"@ != "florist"@);
            reveal_strlit("laundry");
            assert("country"@[0] != "laundry"@[0]);
            assert("country"@ != "laundry"@);
            reveal_strlit("library");
            assert("country"@[0] != "library"@[0]);
            assert("country"@ != "library"@);
            reveal_strlit("lodging");
            assert("country"@[0] != "lodging"@[0]);
            assert("country"@ != "lodging"@);
            reveal_strlit("painter");
            assert("country"@[0] != "painter"@[0]);
            assert("country"@ != "painter"@);
            reveal_strlit("parking");
            assert("country"@[0] != "parking"@[0]);
            assert("country"@ != "parking"@);
            reveal_strlit("plumber");
            assert("country"@[0] != "plumber"@[0]);
            assert("country"@ != "plumber"@);
            reveal_strlit("rv_park");
            assert("country"@[0] != "rv_park"@[0]);
            assert("country"@ != "rv_park"@);
            reveal_strlit("stadium");
            assert("country"@[0] != "stadium"@[0]);
            assert("country"@ != "stadium"@);
            reveal_strlit("storage");
            assert("country"@[0] != "storage"@[0]);
            assert("country"@ != "storage"@);
            assert(PlaceType::from_wire_spec("country"@) == Some(PlaceType::Country));
            assert(PlaceType::from_wire_spec(v.wire_spec()) == Some(v));
        },
        PlaceType::Establishment => {
            reveal_strlit("establishment");
            assert(v.wire_spec() == "establishment"@);
            reveal_strlit("bicycle_store");
            assert("establishment"@[0] != "bicycle_store"@[0]);
            assert("establishment"@ != "bicycle_store"@);
            reveal_strlit("bowling_alley");
            assert("establishment"@[0] != "bowling_alley"@[0]);
            assert("establishment"@ != "bowling_alley"@);
            reveal_strlit("jewelry_store");
            assert("establishment"@[0] != "jewelry_store"@[0]);
            assert("establishment"@ != "jewelry_store"@);
            reveal_strlit("meal_delivery");
            assert("establishment"@[0] != "meal_delivery"@[0]);
            assert("establishment"@ != "meal_delivery"@);
            reveal_strlit("meal_takeaway");
            assert("establishment"@[0] != "meal_takeaway"@[0]);
            assert("establishment"@ != "meal_takeaway"@);
            reveal_strlit("movie_theater");
            assert("establishment"@[0] != "movie_theater"@[0]);
            assert("establishment"@ != "movie_theater"@);
            reveal_strlit("shopping_mall");
            assert("establishment"@[0] != "shopping_mall"@[0]);
            assert("establishment"@ != "shopping_mall"@);
            reveal_strlit("train_station");
            assert("establishment"@[0] != "train_station"@[0]);
            assert("establishment"@ != "train_station"@);
            reveal_strlit("travel_agency");
            assert("establishment"@[0] != "travel_agency"@[0]);
            assert("establishment"@ != "travel_agency"@);
            assert(PlaceType::from_wire_spec("establishment"@) == Some(PlaceType::Establishment));
            assert(PlaceType::from_wire_spec(v.wire_spec()) == Some(v));
        },
        PlaceType::Finance => {
            reveal_strlit("finance");
            assert(v.wire_spec() == "finance"@);
            reveal_strlit("airport");
            assert("finance"@[0] != "airport"@[0]);
            assert("finance"@ != "airport"@);
            reveal_strlit("dentist");
            assert("finance"@[0] != "dentist"@[0]);
            assert("finance"@ != "dentist"@);
            reveal_strlit("embassy");
            assert("finance"@[0] != "embassy"@[0]);
            assert("finance"@ != "embassy"@);
            reveal_strlit("florist");
            assert("finance"@[1] != "florist"@[1]);
            assert("finance"@ != "florist"@);
            reveal_strlit("laundry");
            assert("finance"@[0] != "laundry"@[0]);
            assert("finance"@ != "laundry"@);
            reveal_strlit("library");
            assert("finance"@[0] != "library"@[0]);
            assert("finance"@ != "library"@);
            reveal_strlit("lodging");
            assert("finance"@[0] != "lodging"@[0]);
            assert("finance"@ != "lodging"@);
            reveal_strlit("painter");
            assert("finance"@[0] != "painter"@[0]);
            assert("finance"@ != "painter"@);
            reveal_strlit("parking");
            assert("finance"@[0] != "parking"@[0]);
            assert("finance"@ != "parking"@);
            reveal_strlit("plumber");
            assert("finance"@[0] != "plumber"@[0]);
            assert("finance"@ != "plumber"@);
            reveal_strlit("rv_park");
            assert("finance"@[0] != "rv_park"@[0]);
            assert("finance"@ != "rv_park"@);
            reveal_strlit("stadium");
            assert("finance"@[0] != "stadium"@[0]);
            assert("finance"@ != "stadium"@);
            reveal_strlit("storage");
            assert("finance"@[0] != "storage"@[0]);
            assert("finance"@ != "storage"@);
            reveal_strlit("country");
            assert("finance"@[0] != "country"@[0]);
            assert("finance"@ != "country"@);
            assert(PlaceType::from_wire_spec("finance"@) == Some(PlaceType::Finance));
            assert(PlaceType::from_wire_spec(v.wire_spec()) == Some(v));
        },
        PlaceType::Floor => {
            reveal_strlit("floor");
            assert(v.wire_spec() == "floor"@);
            reveal_strlit("store");
            assert("floor"@[0] != "store"@[0]);
            assert("floor"@ != "store"@);
            assert(PlaceType::from_wire_spec("floor"@) == Some(PlaceType::Floor));
            assert(PlaceType::from_wire_spec(v.wire_spec()) == Some(v));
        },
        _ => {},
    }
}

proof fn lemma_round_trip_group12(v: PlaceType)
    requires
        ({
            ||| v matches PlaceType::Food
            ||| v matches PlaceType::GeneralContractor
            ||| v matches PlaceType::Geocode
            ||| v matches PlaceType::Health
            ||| v matches PlaceType::Intersection
        }),
    ensures
        PlaceType::from_wire_spec(v.wire_spec()) == Some(v),
{
    match v {
        PlaceType::Food => {
            reveal_strlit("food");
            assert(v.wire_spec() == "food"@);
            reveal_strlit("bank");
            assert("food"@[0] != "bank"@[0]);
            assert("food"@ != "bank"@);
            reveal_strlit("cafe");
            assert("food"@[0] != "cafe"@[0]);
            assert("food"@ != "cafe"@);
            reveal_strlit("park");
            assert("food"@[0] != "park"@[0]);
            assert("food"@ != "park"@);
            assert(PlaceType::from_wire_spec("food"@) == Some(PlaceType::Food));
            assert(PlaceType::from_wire_spec(v.wire_spec()) == Some(v));
        },
        PlaceType::GeneralContractor => {
            reveal_strlit("general_contractor");
            assert(v.wire_spec() == "general_contractor"@);
            reveal_strlit("light_rail_station");
            assert("general_contractor"@[0] != "light_rail_station"@[0]);
            assert("general_contractor"@ != "light_rail_station"@);
            reveal_strlit("real_estate_agency");
            assert("general_contractor"@[0] != "real_estate_agency"@[0]);
            assert("general_contractor"@ != "real_estate_agency"@);
            reveal_strlit("roofing_contractor");
            assert("general_contractor"@[0] != "roofing_contractor"@[0]);
            assert("general_contractor"@ != "roofing_contractor"@);
            reveal_strlit("tourist_attraction");
            assert("general_contractor"@[0] != "tourist_attraction"@[0]);
            assert("general_contractor"@ != "tourist_attraction"@);
            assert(PlaceType::from_wire_spec("general_contractor"@) == Some(PlaceType::GeneralContractor));
            assert(PlaceType::from_wire_spec(v.wire_spec()) == Some(v));
        },
        PlaceType::Geocode => {
            reveal_strlit("geocode");
            assert(v.wire_spec() == "geocode"@);
            reveal_strlit("airport");
            assert("geocode"@[0] != "airport"@[0]);
            assert("geocode"@ != "airport"@);
            reveal_strlit("dentist");
            assert("geocode"@[0] != "dentist"@[0]);
            assert("geocode"@ != "dentist"@);
            reveal_strlit("embassy");
            assert("geocode"@[0] != "embassy"@[0]);
            assert("geocode"@ != "embassy"@);
            reveal_strlit("florist");
            assert("geocode"@[0] != "florist"@[0]);
            assert("geocode"@ != "florist"@);
            reveal_strlit("laundry");
            assert("geocode"@[0] != "laundry"@[0]);
            assert("geocode"@ != "laundry"@);
            reveal_strlit("library");
            assert("geocode"@[0] != "library"@[0]);
            assert("geocode"@ != "library"@);
            reveal_strlit("lodging");
            assert("geocode"@[0] != "lodging"@[0]);
            assert("geocode"@ != "lodging"@);
            reveal_strlit("painter");
            assert("geocode"@[0] != "painter"@[0]);
            assert("geocode"@ != "painter"@);
            reveal_strlit("parking");
            assert("geocode"@[0] != "parking"@[0]);
            assert("geocode"@ != "parking"@);
            reveal_strlit("plumber");
            assert("geocode"@[0] != "plumber"@[0]);
            assert("geocode"@ != "plumber"@);
            reveal_strlit("rv_park");
            assert("geocode"@[0] != "rv_park"@[0]);
            assert("geocode"@ != "rv_park"@);
            reveal_strlit("stadium");
            assert("geocode"@[0] != "stadium"@[0]);
            assert("geocode"@ != "stadium"@);
            reveal_strlit("storage");
            assert("geocode"@[0] != "storage"@[0]);
            assert("geocode"@ != "storage"@);
            reveal_strlit("country");
            assert("geocode"@[0] != "country"@[0]);
            assert("geocode"@ != "country"@);
            reveal_strlit("finance");
            assert("geocode"@[0] != "finance"@[0]);
            assert("geocode"@ != "finance"@);
            assert(PlaceType::from_wire_spec("geocode"@) == Some(PlaceType::Geocode));
            assert(PlaceType::from_wire_spec(v.wire_spec()) == Some(v));
        },
        PlaceType::Health => {
            reveal_strlit("health");
            assert(v.wire_spec() == "health"@);
            reveal_strlit("bakery");
            assert("health"@[0] != "bakery"@[0]);
            assert("health"@ != "bakery"@);
            reveal_strlit("casino");
            assert("health"@[0] != "casino"@[0]);
            assert("health"@ != "casino"@);
            reveal_strlit("church");
            assert("health"@[0] != "church"@[0]);
            assert("health"@ != "church"@);
            reveal_strlit("doctor");
            assert("health"@[0] != "doctor"@[0]);
            assert("health"@ != "doctor"@);
            reveal_strlit("lawyer");
            assert("health"@[0] != "lawyer"@[0]);
            assert("health"@ != "lawyer"@);
            reveal_strlit("mosque");
            assert("health"@[0] != "mosque"@[0]);
            assert("health"@ != "mosque"@);
            reveal_strlit("museum");
            assert("health"@[0] != "museum"@[0]);
            assert("health"@ != "museum"@);
            reveal_strlit("police");
            assert("health"@[0] != "police"@[0]);
            assert("health"@ != "police"@);
            reveal_strlit("school");
            assert("health"@[0] != "school"@[0]);
            assert("health"@ != "school"@);
            assert(PlaceType::from_wire_spec("health"@) == Some(PlaceType::Health));
            assert(PlaceType::from_wire_spec(v.wire_spec()) == Some(v));
        },
        PlaceType::Intersection => {
            reveal_strlit("intersection");
            assert(v.wire_spec() == "intersection"@);
            reveal_strlit("beauty_salon");
            assert("intersection"@[0] != "beauty_salon"@[0]);
            assert("intersection"@ != "beauty_salon"@);
            reveal_strlit("fire_station");
            assert("intersection"@[0] != "fire_station"@[0]);
            assert("intersection"@ != "fire_station"@);
            reveal_strlit("funeral_home");
            assert("intersection"@[0] != "funeral_home"@[0]);
            assert("intersection"@ != "funeral_home"@);
            reveal_strlit("hindu_temple");
            assert("intersection"@[0] != "hindu_temple"@[0]);
            assert("intersection"@ != "hindu_temple"@);
            reveal_strlit("liquor_store");
            assert("intersection"@[0] != "liquor_store"@[0]);
            assert("intersection"@ != "liquor_store"@);
            reveal_strlit("movie_rental");
            assert("intersection"@[0] != "movie_rental"@[0]);
            assert("intersection"@ != "movie_rental"@);
            assert(PlaceType::from_wire_spec("intersection"@) == Some(PlaceType::Intersection));
            assert(PlaceType::from_wire_spec(v.wire_spec()) == Some(v));
        },
        _ => {},
    }
}

proof fn lemma_round_trip_group13(v: PlaceType)
    requires
        ({
            ||| v matches PlaceType::Locality
            ||| v matches PlaceType::NaturalFeature
            ||| v matches PlaceType::Neighborhood
            ||| v matches PlaceType::PlaceOfWorship
            ||| v matches PlaceType::PointOfInterest
            ||| v matches PlaceType::Political
            ||| v matches PlaceType::PostBox
        }),
    ensures
        PlaceType::from_wire_spec(v.wire_spec()) == Some(v),
{
    match v {
        PlaceType::Locality => {
            reveal_strlit("locality");
            assert(v.wire_spec() == "locality"@);
            reveal_strlit("aquarium");
            assert("locality"@[0] != "aquarium"@[0]);
            assert("locality"@ != "aquarium"@);
            reveal_strlit("car_wash");
            assert("locality"@[0] != "car_wash"@[0]);
            assert("locality"@ != "car_wash"@);
            reveal_strlit("cemetery");
            assert("locality"@[0] != "cemetery"@[0]);
            assert("locality"@ != "cemetery"@);
            reveal_strlit("hospital");
            assert("locality"@[0] != "hospital"@[0]);
            assert("locality"@ != "hospital"@);
            reveal_strlit("pharmacy");
            assert("locality"@[0] != "pharmacy"@[0]);
            assert("locality"@ != "pharmacy"@);
            assert(PlaceType::from_wire_spec("locality"@) == Some(PlaceType::Locality));
            assert(PlaceType::from_wire_spec(v.wire_spec()) == Some(v));
        },
        PlaceType::NaturalFeature => {
            reveal_strlit("natural_feature");
            assert(v.wire_spec() == "natural_feature"@);
            reveal_strlit("furniture_store");
            assert("natural_feature"@[0] != "furniture_store"@[0]);
            assert("natural_feature"@ != "furniture_store"@);
            reveal_strlit("physiotherapist");
            assert("natural_feature"@[0] != "physiotherapist"@[0]);
            assert("natural_feature"@ != "physiotherapist"@);
            reveal_strlit("transit_station");
            assert("natural_feature"@[0] != "transit_station"@[0]);
            assert("natural_feature"@ != "transit_station"@);
            reveal_strlit("veterinary_care");
            assert("natural_feature"@[0] != "veterinary_care"@[0]);
            assert("natural_feature"@ != "veterinary_care"@);
            reveal_strlit("colloquial_area");
            assert("natural_feature"@[0] != "colloquial_area"@[0]);
            assert("natural_feature"@ != "colloquial_area"@);
            assert(PlaceType::from_wire_spec("natural_feature"@) == Some(PlaceType::NaturalFeature));
            assert(PlaceType::from_wire_spec(v.wire_spec()) == Some(v));
        },
        PlaceType::Neighborhood => {
            reveal_strlit("neighborhood");
            assert(v.wire_spec() == "neighborhood"@);
            reveal_strlit("beauty_salon");
            assert("neighborhood"@[0] != "beauty_salon"@[0]);
            assert("neighborhood"@ != "beauty_salon"@);
            reveal_strlit("fire_station");
            assert("neighborhood"@[0] != "fire_station"@[0]);
            assert("neighborhood"@ != "fire_station"@);
            reveal_strlit("funeral_home");
            assert("neighborhood"@[0] != "funeral_home"@[0]);
            assert("neighborhood"@ != "funeral_home"@);
            reveal_strlit("hindu_temple");
            assert("neighborhood"@[0] != "hindu_temple"@[0]);
            assert("neighborhood"@ != "hindu_temple"@);
            reveal_strlit("liquor_store");
            assert("neighborhood"@[0] != "liquor_store"@[0]);
            assert("neighborhood"@ != "liquor_store"@);
            reveal_strlit("movie_rental");
            assert("neighborhood"@[0] != "movie_rental"@[0]);
            assert("neighborhood"@ != "movie_rental"@);
            reveal_strlit("intersection");
            assert("neighborhood"@[0] != "intersection"@[0]);
            assert("neighborhood"@ != "intersection"@);
            assert(PlaceType::from_wire_spec("neighborhood"@) == Some(PlaceType::Neighborhood));
            assert(PlaceType::from_wire_spec(v.wire_spec()) == Some(v));
        },
        PlaceType::PlaceOfWorship => {
            reveal_strlit("place_of_worship");
            assert(v.wire_spec() == "place_of_worship"@);
            reveal_strlit("department_store");
            assert("place_of_worship"@[0] != "department_store"@[0]);
            assert("place_of_worship"@ != "department_store"@);
            reveal_strlit("home_goods_store");
            assert("place_of_worship"@[0] != "home_goods_store"@[0]);
            assert("place_of_worship"@ != "home_goods_store"@);
            reveal_strlit("insurance_agency");
            assert("place_of_worship"@[0] != "insurance_agency"@[0]);
            assert("place_of_worship"@ != "insurance_agency"@);
            reveal_strlit("secondary_school");
            assert("place_of_worship"@[0] != "secondary_school"@[0]);
            assert("place_of_worship"@ != "secondary_school"@);
            assert(PlaceType::from_wire_spec("place_of_worship"@) == Some(PlaceType::PlaceOfWorship));
            assert(PlaceType::from_wire_spec(v.wire_spec()) == Some(v));
        },
        PlaceType::PointOfInterest => {
            reveal_strlit("point_of_interest");
            assert(v.wire_spec() == "point_of_interest"@);
            reveal_strlit("convenience_store");
            assert("point_of_interest"@[0] != "convenience_store"@[0]);
            assert("point_of_interest"@ != "convenience_store"@);
            reveal_strlit("electronics_store");
            assert("point_of_interest"@[0] != "electronics_store"@[0]);
            assert("point_of_interest"@ != "electronics_store"@);
            assert(PlaceType::from_wire_spec("point_of_interest"@) == Some(PlaceType::PointOfInterest));
            assert(PlaceType::from_wire_spec(v.wire_spec()) == Some(v));
        },
        PlaceType::Political => {
            reveal_strlit("political");
            assert(v.wire_spec() == "political"@);
            reveal_strlit("city_hall");
            assert("political"@[0] != "city_hall"@[0]);
            assert("political"@ != "city_hall"@);
            reveal_strlit("drugstore");
            assert("political"@[0] != "drugstore"@[0]);
            assert("political"@ != "drugstore"@);
            reveal_strlit("hair_care");
            assert("political"@[0] != "hair_care"@[0]);
            assert("political"@ != "hair_care"@);
            reveal_strlit("locksmith");
            assert("political"@[0] != "locksmith"@[0]);
            assert("political"@ != "locksmith"@);
            reveal_strlit("pet_store");
            assert("political"@[1] != "pet_store"@[1]);
            assert("political"@ != "pet_store"@);
            reveal_strlit("plus_code");
            assert("political"@[1] != "plus_code"@[1]);
            assert("political"@ != "plus_code"@);
            reveal_strlit("synagogue");
            assert("political"@[0] != "synagogue"@[0]);
            assert("political"@ != "synagogue"@);
            reveal_strlit("continent");
            assert("political"@[0] != "continent"@[0]);
            assert("political"@ != "continent"@);
            assert(PlaceType::from_wire_spec("political"@) == Some(PlaceType::Political));
            assert(PlaceType::from_wire_spec(v.wire_spec()) == Some(v));
        },
        PlaceType::PostBox => {
            reveal_strlit("post_box");
            assert(v.wire_spec() == "post_box"@);
            reveal_strlit("aquarium");
            assert("post_box"@[0] != "aquarium"@[0]);
            assert("post_box"@ != "aquarium"@);
            reveal_strlit("car_wash");
            assert("post_box"@[0] != "car_wash"@[0]);
            assert("post_box"@ != "car_wash"@);
            reveal_strlit("cemetery");
            assert("post_box"@[0] != "cemetery"@[0]);
            assert("post_box"@ != "cemetery"@);
            reveal_strlit("hospital");
            assert("post_box"@[0] != "hospital"@[0]);
            assert("post_box"@ != "hospital"@);
            reveal_strlit("pharmacy");
            assert("post_box"@[1] != "pharmacy"@[1]);
            assert("post_box"@ != "pharmacy"@);
            reveal_strlit("locality");
            assert("post_box"@[0] != "locality"@[0]);
            assert("post_box"@ != "locality"@);
            assert(PlaceType::from_wire_spec("post_box"@) == Some(PlaceType::PostBox));
            assert(PlaceType::from_wire_spec(v.wire_spec()) == Some(v));
        },
        _ => {},
    }
}

proof fn lemma_round_trip_group14(v: PlaceType)
    requires
        ({
            ||| v matches PlaceType::PostalCode
            ||| v matches PlaceType::PostalCodePrefix
            ||| v matches PlaceType::PostalCodeSuffix
            ||| v matches PlaceType::PostalTown
        }),
    ensures
        PlaceType::from_wire_spec(v.wire_spec()) == Some(v),
{
    match v {
        PlaceType::PostalCode => {
            reveal_strlit("postal_code");
            assert(v.wire_spec() == "postal_code"@);
            reveal_strlit("art_gallery");
            assert("postal_code"@[0] != "art_gallery"@[0]);
            assert("postal_code"@ != "art_gallery"@);
            reveal_strlit("bus_station");
            assert("postal_code"@[0] != "bus_station"@[0]);
            assert("postal_code"@ != "bus_station"@);
            reveal_strlit("electrician");
            assert("postal_code"@[0] != "electrician"@[0]);
            assert("postal_code"@ != "electrician"@);
            reveal_strlit("gas_station");
            assert("postal_code"@[0] != "gas_station"@[0]);
            assert("postal_code"@ != "gas_station"@);
            reveal_strlit("post_office");
            assert("postal_code"@[4] != "post_office"@[4]);
            assert("postal_code"@ != "post_office"@);
            reveal_strlit("supermarket");
            assert("postal_code"@[0] != "supermarket"@[0]);
            assert("postal_code"@ != "supermarket"@);
            reveal_strlit("archipelago");
            assert("postal_code"@[0] != "archipelago"@[0]);
            assert("postal_code"@ != "archipelago"@);
            assert(PlaceType::from_wire_spec("postal_code"@) == Some(PlaceType::PostalCode));
            assert(PlaceType::from_wire_spec(v.wire_spec()) == Some(v));
        },
        PlaceType::PostalCodePrefix => {
            reveal_strlit("postal_code_prefix");
            assert(v.wire_spec() == "postal_code_prefix"@);
            reveal_strlit("light_rail_station");
            assert("postal_code_prefix"@[0] != "light_rail_station"@[0]);
            assert("postal_code_prefix"@ != "light_rail_station"@);
            reveal_strlit("real_estate_agency");
            assert("postal_code_prefix"@[0] != "real_estate_agency"@[0]);
            assert("postal_code_prefix"@ != "real_estate_agency"@);
            reveal_strlit("roofing_contractor");
            assert("postal_code_prefix"@[0] != "roofing_contractor"@[0]);
            assert("postal_code_prefix"@ != "roofing_contractor"@);
            reveal_strlit("tourist_attraction");
            assert("postal_code_prefix"@[0] != "tourist_attraction"@[0]);
            assert("postal_code_prefix"@ != "tourist_attraction"@);
            reveal_strlit("general_contractor");
            assert("postal_code_prefix"@[0] != "general_contractor"@[0]);
            assert("postal_code_prefix"@ != "general_contractor"@);
            assert(PlaceType::from_wire_spec("postal_code_prefix"@) == Some(PlaceType::PostalCodePrefix));
            assert(PlaceType::from_wire_spec(v.wire_spec()) == Some(v));
        },
        PlaceType::PostalCodeSuffix => {
            reveal_strlit("postal_code_suffix");
            assert(v.wire_spec() == "postal_code_suffix"@);
            reveal_strlit("light_rail_station");
            assert("postal_code_suffix"@[0] != "light_rail_station"@[0]);
            assert("postal_code_suffix"@ != "light_rail_station"@);
            reveal_strlit("real_estate_agency");
            assert("postal_code_suffix"@[0] != "real_estate_agency"@[0]);
            assert("postal_code_suffix"@ != "real_estate_agency"@);
            reveal_strlit("roofing_contractor");
            assert("postal_code_suffix"@[0] != "roofing_contractor"@[0]);
            assert("postal_code_suffix"@ != "roofing_contractor"@);
            reveal_strlit("tourist_attraction");
            assert("postal_code_suffix"@[0] != "tourist_attraction"@[0]);
            assert("postal_code_suffix"@ != "tourist_attraction"@);
            reveal_strlit("general_contractor");
            assert("postal_code_suffix"@[0] != "general_contractor"@[0]);
            assert("postal_code_suffix"@ != "general_contractor"@);
            reveal_strlit("postal_code_prefix");
            assert("postal_code_suffix"@[12] != "postal_code_prefix"@[12]);
            assert("postal_code_suffix"@ != "postal_code_prefix"@);
            assert(PlaceType::from_wire_spec("postal_code_suffix"@) == Some(PlaceType::PostalCodeSuffix));
            assert(PlaceType::from_wire_spec(v.wire_spec()) == Some(v));
        },
        PlaceType::PostalTown => {
            reveal_strlit("postal_town");
            assert(v.wire_spec() == "postal_town"@);
            reveal_strlit("art_gallery");
            assert("postal_town"@[0] != "art_gallery"@[0]);
            assert("postal_town"@ != "art_gallery"@);
            reveal_strlit("bus_station");
            assert("postal_town"@[0] != "bus_station"@[0]);
            assert("postal_town"@ != "bus_station"@);
            reveal_strlit("electrician");
            assert("postal_town"@[0] != "electrician"@[0]);
            assert("postal_town"@ != "electrician"@);
            reveal_strlit("gas_station");
            assert("postal_town"@[0] != "gas_station"@[0]);
            assert("postal_town"@ != "gas_station"@);
            reveal_strlit("post_office");
            assert("postal_town"@[4] != "post_office"@[4]);
            assert("postal_town"@ != "post_office"@);
            reveal_strlit("supermarket");
            assert("postal_town"@[0] != "supermarket"@[0]);
            assert("postal_town"@ != "supermarket"@);
            reveal_strlit("archipelago");
            assert("postal_town"@[0] != "archipelago"@[0]);
            assert("postal_town"@ != "archipelago"@);
            reveal_strlit("postal_code");
            assert("postal_town"@[7] != "postal_code"@[7]);
            assert("postal_town"@ != "postal_code"@);
            assert(PlaceType::from_wire_spec("postal_town"@) == Some(PlaceType::PostalTown));
            assert(PlaceType::from_wire_spec(v.wire_spec()) == Some(v));
        },
        _ => {},
    }
}

proof fn lemma_round_trip_group15(v: PlaceType)
    requires
        ({
            ||| v matches PlaceType::Premise
            ||| v matches PlaceType::Room
            ||| v matches PlaceType::Route
            ||| v matches PlaceType::StreetAddress
            ||| v matches PlaceType::StreetNumber
        }),
    ensures
        PlaceType::from_wire_spec(v.wire_spec()) == Some(v),
{
    match v {
        PlaceType::Premise => {
            reveal_strlit("premise");
            assert(v.wire_spec() == "premise"@);
            reveal_strlit("airport");
            assert("premise"@[0] != "airport"@[0]);
            assert("premise"@ != "airport"@);
            reveal_strlit("dentist");
            assert("premise"@[0] != "dentist"@[0]);
            assert("premise"@ != "dentist"@);
            reveal_strlit("embassy");
            assert("premise"@[0] != "embassy"@[0]);
            assert("premise"@ != "embassy"@);
            reveal_strlit("florist");
            assert("premise"@[0] != "florist"@[0]);
            assert("premise"@ != "florist"@);
            reveal_strlit("laundry");
            assert("premise"@[0] != "laundry"@[0]);
            assert("premise"@ != "laundry"@);
            reveal_strlit("library");
            assert("premise"@[0] != "library"@[0]);
            assert("premise"@ != "library"@);
            reveal_strlit("lodging");
            assert("premise"@[0] != "lodging"@[0]);
            assert("premise"@ != "lodging"@);
            reveal_strlit("painter");
            assert("premise"@[1] != "painter"@[1]);
            assert("premise"@ != "painter"@);
            reveal_strlit("parking");
            assert("premise"@[1] != "parking"@[1]);
            assert("premise"@ != "parking"@);
            reveal_strlit("plumber");
            assert("premise"@[1] != "plumber"@[1]);
            assert("premise"@ != "plumber"@);
            reveal_strlit("rv_park");
            assert("premise"@[0] != "rv_park"@[0]);
            assert("premise"@ != "rv_park"@);
            reveal_strlit("stadium");
            assert("premise"@[0] != "stadium"@[0]);
            assert("premise"@ != "stadium"@);
            reveal_strlit("storage");
            assert("premise"@[0] != "storage"@[0]);
            assert("premise"@ != "storage"@);
            reveal_strlit("country");
            assert("premise"@[0] != "country"@[0]);
            assert("premise"@ != "country"@);
            reveal_strlit("finance");
            assert("premise"@[0] != "finance"@[0]);
            assert("premise"@ != "finance"@);
            reveal_strlit("geocode");
            assert("premise"@[0] != "geocode"@[0]);
            assert("premise"@ != "geocode"@);
            assert(PlaceType::from_wire_spec("premise"@) == Some(PlaceType::Premise));
            assert(PlaceType::from_wire_spec(v.wire_spec()) == Some(v));
        },
        PlaceType::Room => {
            reveal_strlit("room");
            assert(v.wire_spec() == "room"@);
            reveal_strlit("bank");
            assert("room"@[0] != "bank"@[0]);
            assert("room"@ != "bank"@);
            reveal_strlit("cafe");
            assert("room"@[0] != "cafe"@[0]);
            assert("room"@ != "cafe"@);
            reveal_strlit("park");
            assert("room"@[0] != "park"@[0]);
            assert("room"@ != "park"@);
            reveal_strlit("food");
            assert("room"@[0] != "food"@[0]);
            assert("room"@ != "food"@);
            assert(PlaceType::from_wire_spec("room"@) == Some(PlaceType::Room));
            assert(PlaceType::from_wire_spec(v.wire_spec()) == Some(v));
        },
        PlaceType::Route => {
            reveal_strlit("route");
            assert(v.wire_spec() == "route"@);
            reveal_strlit("store");
            assert("route"@[0] != "store"@[0]);
            assert("route"@ != "store"@);
            reveal_strlit("floor");
            assert("route"@[0] != "floor"@[0]);
            assert("route"@ != "floor"@);
            assert(PlaceType::from_wire_spec("route"@) == Some(PlaceType::Route));
            assert(PlaceType::from_wire_spec(v.wire_spec()) == Some(v));
        },
        PlaceType::StreetAddress => {
            reveal_strlit("street_address");
            assert(v.wire_spec() == "street_address"@);
            reveal_strlit("amusement_park");
            assert("street_address"@[0] != "amusement_park"@[0]);
            assert("street_address"@ != "amusement_park"@);
            reveal_strlit("clothing_store");
            assert("street_address"@[0] != "clothing_store"@[0]);
            assert("street_address"@ != "clothing_store"@);
            reveal_strlit("hardware_store");
            assert("street_address"@[0] != "hardware_store"@[0]);
            assert("street_address"@ != "hardware_store"@);
            reveal_strlit("moving_company");
            assert("street_address"@[0] != "moving_company"@[0]);
            assert("street_address"@ != "moving_company"@);
            reveal_strlit("primary_school");
            assert("street_address"@[0] != "primary_school"@[0]);
            assert("street_address"@ != "primary_school"@);
            reveal_strlit("subway_station");
            assert("street_address"@[1] != "subway_station"@[1]);
            assert("street_address"@ != "subway_station"@);
            assert(PlaceType::from_wire_spec("street_address"@) == Some(PlaceType::StreetAddress));
            assert(PlaceType::from_wire_spec(v.wire_spec()) == Some(v));
        },
        PlaceType::StreetNumber => {
            reveal_strlit("street_number");
            assert(v.wire_spec() == "street_number"@);
            reveal_strlit("bicycle_store");
            assert("street_number"@[0] != "bicycle_store"@[0]);
            assert("street_number"@ != "bicycle_store"@);
            reveal_strlit("bowling_alley");
            assert("street_number"@[0] != "bowling_alley"@[0]);
            assert("street_number"@ != "bowling_alley"@);
            reveal_strlit("jewelry_store");
            assert("street_number"@[0] != "jewelry_store"@[0]);
            assert("street_number"@ != "jewelry_store"@);
            reveal_strlit("meal_delivery");
            assert("street_number"@[0] != "meal_delivery"@[0]);
            assert("street_number"@ != "meal_delivery"@);
            reveal_strlit("meal_takeaway");
            assert("street_number"@[0] != "meal_takeaway"@[0]);
            assert("street_number"@ != "meal_takeaway"@);
            reveal_strlit("movie_theater");
            assert("street_number"@[0] != "movie_theater"@[0]);
            assert("street_number"@ != "movie_theater"@);
            reveal_strlit("shopping_mall");
            assert("street_number"@[1] != "shopping_mall"@[1]);
            assert("street_number"@ != "shopping_mall"@);
            reveal_strlit("train_station");
            assert("street_number"@[0] != "train_station"@[0]);
            assert("street_number"@ != "train_station"@);
            reveal_strlit("travel_agency");
            assert("street_number"@[0] != "travel_agency"@[0]);
            assert("street_number"@ != "travel_agency"@);
            reveal_strlit("establishment");
            assert("street_number"@[0] != "establishment"@[0]);
            assert("street_number"@ != "establishment"@);
            assert(PlaceType::from_wire_spec("street_number"@) == Some(PlaceType::StreetNumber));
            assert(PlaceType::from_wire_spec(v.wire_spec()) == Some(v));
        },
        _ => {},
    }
}

proof fn lemma_round_trip_group16(v: PlaceType)
    requires
        ({
            ||| v matches PlaceType::Sublocality
            ||| v matches PlaceType::SublocalityLevel1
            ||| v matches PlaceType::SublocalityLevel2
            ||| v matches PlaceType::SublocalityLevel3
            ||| v matches PlaceType::SublocalityLevel4
            ||| v matches PlaceType::SublocalityLevel5
            ||| v matches PlaceType::Subpremise
        }),
    ensures
        PlaceType::from_wire_spec(v.wire_spec()) == Some(v),
{
    match v {
        PlaceType::Sublocality => {
            reveal_strlit("sublocality");
            assert(v.wire_spec() == "sublocality"@);
            reveal_strlit("art_gallery");
            assert("sublocality"@[0] != "art_gallery"@[0]);
            assert("sublocality"@ != "art_gallery"@);
            reveal_strlit("bus_station");
            assert("sublocality"@[0] != "bus_station"@[0]);
            assert("sublocality"@ != "bus_station"@);
            reveal_strlit("electrician");
            assert("sublocality"@[0] != "electrician"@[0]);
            assert("sublocality"@ != "electrician"@);
            reveal_strlit("gas_station");
            assert("sublocality"@[0] != "gas_station"@[0]);
            assert("sublocality"@ != "gas_station"@);
            reveal_strlit("post_office");
            assert("sublocality"@[0] != "post_office"@[0]);
            assert("sublocality"@ != "post_office"@);
            reveal_strlit("supermarket");
            assert("sublocality"@[2] != "supermarket"@[2]);
            assert("sublocality"@ != "supermarket"@);
            reveal_strlit("archipelago");
            assert("sublocality"@[0] != "archipelago"@[0]);
            assert("sublocality"@ != "archipelago"@);
            reveal_strlit("postal_code");
            assert("sublocality"@[0] != "postal_code"@[0]);
            assert("sublocality"@ != "postal_code"@);
            reveal_strlit("postal_town");
            assert("sublocality"@[0] != "postal_town"@[0]);
            assert("sublocality"@ != "postal_town"@);
            assert(PlaceType::from_wire_spec("sublocality"@) == Some(PlaceType::Sublocality));
            assert(PlaceType::from_wire_spec(v.wire_spec()) == Some(v));
        },
        PlaceType::SublocalityLevel1 => {
            reveal_strlit("sublocality_level_1");
            assert(v.wire_spec() == "sublocality_level_1"@);
            assert(PlaceType::from_wire_spec("sublocality_level_1"@) == Some(PlaceType::SublocalityLevel1));
            assert(PlaceType::from_wire_spec(v.wire_spec()) == Some(v));
        },
        PlaceType::SublocalityLevel2 => {
            reveal_strlit("sublocality_level_2");
            assert(v.wire_spec() == "sublocality_level_2"@);
            reveal_strlit("sublocality_level_1");
            assert("sublocality_level_2"@[18] != "sublocality_level_1"@[18]);
            assert("sublocality_level_2"@ != "sublocality_level_1"@);
            assert(PlaceType::from_wire_spec("sublocality_level_2"@) == Some(PlaceType::SublocalityLevel2));
            assert(PlaceType::from_wire_spec(v.wire_spec()) == Some(v));
        },
        PlaceType::SublocalityLevel3 => {
            reveal_strlit("sublocality_level_3");
            assert(v.wire_spec() == "sublocality_level_3"@);
            reveal_strlit("sublocality_level_1");
            assert("sublocality_level_3"@[18] != "sublocality_level_1"@[18]);
            assert("sublocality_level_3"@ != "sublocality_level_1"@);
            reveal_strlit("sublocality_level_2");
            assert("sublocality_level_3"@[18] != "sublocality_level_2"@[18]);
            assert("sublocality_level_3"@ != "sublocality_level_2"@);
            assert(PlaceType::from_wire_spec("sublocality_level_3"@) == Some(PlaceType::SublocalityLevel3));
            assert(PlaceType::from_wire_spec(v.wire_spec()) == Some(v));
        },
        PlaceType::SublocalityLevel4 => {
            reveal_strlit("sublocality_level_4");
            assert(v.wire_spec() == "sublocality_level_4"@);
            reveal_strlit("sublocality_level_1");
            assert("sublocality_level_4"@[18] != "sublocality_level_1"@[18]);
            assert("sublocality_level_4"@ != "sublocality_level_1"@);
            reveal_strlit("sublocality_level_2");
            assert("sublocality_level_4"@[18] != "sublocality_level_2"@[18]);
            assert("sublocality_level_4"@ != "sublocality_level_2"@);
            reveal_strlit("sublocality_level_3");
            assert("sublocality_level_4"@[18] != "sublocality_level_3"@[18]);
            assert("sublocality_level_4"@ != "sublocality_level_3"@);
            assert(PlaceType::from_wire_spec("sublocality_level_4"@) == Some(PlaceType::SublocalityLevel4));
            assert(PlaceType::from_wire_spec(v.wire_spec()) == Some(v));
        },
        PlaceType::SublocalityLevel5 => {
            reveal_strlit("sublocality_level_5");
            assert(v.wire_spec() == "sublocality_level_5"@);
            reveal_strlit("sublocality_level_1");
            assert("sublocality_level_5"@[18] != "sublocality_level_1"@[18]);
            assert("sublocality_level_5"@ != "sublocality_level_1"@);
            reveal_strlit("sublocality_level_2");
            assert("sublocality_level_5"@[18] != "sublocality_level_2"@[18]);
            assert("sublocality_level_5"@ != "sublocality_level_2"@);
            reveal_strlit("sublocality_level_3");
            assert("sublocality_level_5"@[18] != "sublocality_level_3"@[18]);
            assert("sublocality_level_5"@ != "sublocality_level_3"@);
            reveal_strlit("sublocality_level_4");
            assert("sublocality_level_5"@[18] != "sublocality_level_4"@[18]);
            assert("sublocality_level_5"@ != "sublocality_level_4"@);
            assert(PlaceType::from_wire_spec("sublocality_level_5"@) == Some(PlaceType::SublocalityLevel5));
            assert(PlaceType::from_wire_spec(v.wire_spec()) == Some(v));
        },
        PlaceType::Subpremise => {
            reveal_strlit("subpremise");
            assert(v.wire_spec() == "subpremise"@);
            reveal_strlit("accounting");
            assert("subpremise"@[0] != "accounting"@[0]);
            assert("subpremise"@ != "accounting"@);
            reveal_strlit("book_store");
            assert("subpremise"@[0] != "book_store"@[0]);
            assert("subpremise"@ != "book_store"@);
            reveal_strlit("campground");
            assert("subpremise"@[0] != "campground"@[0]);
            assert("subpremise"@ != "campground"@);
            reveal_strlit("car_dealer");
            assert("subpremise"@[0] != "car_dealer"@[0]);
            assert("subpremise"@ != "car_dealer"@);
            reveal_strlit("car_rental");
            assert("subpremise"@[0] != "car_rental"@[0]);
            assert("subpremise"@ != "car_rental"@);
            reveal_strlit("car_repair");
            assert("subpremise"@[0] != "car_repair"@[0]);
            assert("subpremise"@ != "car_repair"@);
            reveal_strlit("courthouse");
            assert("subpremise"@[0] != "courthouse"@[0]);
            assert("subpremise"@ != "courthouse"@);
            reveal_strlit("night_club");
            assert("subpremise"@[0] != "night_club"@[0]);
            assert("subpremise"@ != "night_club"@);
            reveal_strlit("restaurant");
            assert("subpremise"@[0] != "restaurant"@[0]);
            assert("subpremise"@ != "restaurant"@);
            reveal_strlit("shoe_store");
            assert("subpremise"@[1] != "shoe_store"@[1]);
            assert("subpremise"@ != "shoe_store"@);
            reveal_strlit("taxi_stand");
            assert("subpremise"@[0] != "taxi_stand"@[0]);
            assert("subpremise"@ != "taxi_stand"@);
            reveal_strlit("university");
            assert("subpremise"@[0] != "university"@[0]);
            assert("subpremise"@ != "university"@);
            assert(PlaceType::from_wire_spec("subpremise"@) == Some(PlaceType::Subpremise));
            assert(PlaceType::from_wire_spec(v.wire_spec()) == Some(v));
        },
        _ => {},
    }
}

proof fn lemma_round_trip_group17(v: PlaceType)
    requires
        ({
            ||| v matches PlaceType::TownSquare
            ||| v matches PlaceType::Address
        }),
    ensures
        PlaceType::from_wire_spec(v.wire_spec()) == Some(v),
{
    match v {
        PlaceType::TownSquare => {
            reveal_strlit("town_square");
            assert(v.wire_spec() == "town_square"@);
            reveal_strlit("art_gallery");
            assert("town_square"@[0] != "art_gallery"@[0]);
            assert("town_square"@ != "art_gallery"@);
            reveal_strlit("bus_station");
            assert("town_square"@[0] != "bus_station"@[0]);
            assert("town_square"@ != "bus_station"@);
            reveal_strlit("electrician");
            assert("town_square"@[0] != "electrician"@[0]);
            assert("town_square"@ != "electrician"@);
            reveal_strlit("gas_station");
            assert("town_square"@[0] != "gas_station"@[0]);
            assert("town_square"@ != "gas_station"@);
            reveal_strlit("post_office");
            assert("town_square"@[0] != "post_office"@[0]);
            assert("town_square"@ != "post_office"@);
            reveal_strlit("supermarket");
            assert("town_square"@[0] != "supermarket"@[0]);
            assert("town_square"@ != "supermarket"@);
            reveal_strlit("archipelago");
            assert("town_square"@[0] != "archipelago"@[0]);
            assert("town_square"@ != "archipelago"@);
            reveal_strlit("postal_code");
            assert("town_square"@[0] != "postal_code"@[0]);
            assert("town_square"@ != "postal_code"@);
            reveal_strlit("postal_town");
            assert("town_square"@[0] != "postal_town"@[0]);
            assert("town_square"@ != "postal_town"@);
            reveal_strlit("sublocality");
            assert("town_square"@[0] != "sublocality"@[0]);
            assert("town_square"@ != "sublocality"@);
            assert(PlaceType::from_wire_spec("town_square"@) == Some(PlaceType::TownSquare));
            assert(PlaceType::from_wire_spec(v.wire_spec()) == Some(v));
        },
        PlaceType::Address => {
            reveal_strlit("address");
            assert(v.wire_spec() == "address"@);
            reveal_strlit("airport");
            assert("address"@[1] != "airport"@[1]);
            assert("address"@ != "airport"@);
            reveal_strlit("dentist");
            assert("address"@[0] != "dentist"@[0]);
            assert("address"@ != "dentist"@);
            reveal_strlit("embassy");
            assert("address"@[0] != "embassy"@[0]);
            assert("address"@ != "embassy"@);
            reveal_strlit("florist");
            assert("address"@[0] != "florist"@[0]);
            assert("address"@ != "florist"@);
            reveal_strlit("laundry");
            assert("address"@[0] != "laundry"@[0]);
            assert("address"@ != "laundry"@);
            reveal_strlit("library");
            assert("address"@[0] != "library"@[0]);
            assert("address"@ != "library"@);
            reveal_strlit("lodging");
            assert("address"@[0] != "lodging"@[0]);
            assert("address"@ != "lodging"@);
            reveal_strlit("painter");
            assert("address"@[0] != "painter"@[0]);
            assert("address"@ != "painter"@);
            reveal_strlit("parking");
            assert("address"@[0] != "parking"@[0]);
            assert("address"@ != "parking"@);
            reveal_strlit("plumber");
            assert("address"@[0] != "plumber"@[0]);
            assert("address"@ != "plumber"@);
            reveal_strlit("rv_park");
            assert("address"@[0] != "rv_park"@[0]);
            assert("address"@ != "rv_park"@);
            reveal_strlit("stadium");
            assert("address"@[0] != "stadium"@[0]);
            assert("address"@ != "stadium"@);
            reveal_strlit("storage");
            assert("address"@[0] != "storage"@[0]);
            assert("address"@ != "storage"@);
            reveal_strlit("country");
            assert("address"@[0] != "country"@[0]);
            assert("address"@ != "country"@);
            reveal_strlit("finance");
            assert("address"@[0] != "finance"@[0]);
            assert("address"@ != "finance"@);
            reveal_strlit("geocode");
            assert("address"@[0] != "geocode"@[0]);
            assert("address"@ != "geocode"@);
            reveal_strlit("premise");
            assert("address"@[0] != "premise"@[0]);
            assert("address"@ != "premise"@);
            assert(PlaceType::from_wire_spec("address"@) == Some(PlaceType::Address));
            assert(PlaceType::from_wire_spec(v.wire_spec()) == Some(v));
        },
        _ => {},
    }
}

proof fn lemma_round_trip_group18(v: PlaceType)
    requires
        ({
            ||| v matches PlaceType::Regions
            ||| v matches PlaceType::Cities
        }),
    ensures
        PlaceType::from_wire_spec(v.wire_spec()) == Some(v),
{
    match v {
        PlaceType::Regions => {
            reveal_strlit("regions");
            assert(v.wire_spec() == "regions"@);
            reveal_strlit("airport");
            assert("regions"@[0] != "airport"@[0]);
            assert("regions"@ != "airport"@);
            reveal_strlit("dentist");
            assert("regions"@[0] != "dentist"@[0]);
            assert("regions"@ != "dentist"@);
            reveal_strlit("embassy");
            assert("regions"@[0] != "embassy"@[0]);
            assert("regions"@ != "embassy"@);
            reveal_strlit("florist");
            assert("regions"@[0] != "florist"@[0]);
            assert("regions"@ != "florist"@);
            reveal_strlit("laundry");
            assert("regions"@[0] != "laundry"@[0]);
            assert("regions"@ != "laundry"@);
            reveal_strlit("library");
            assert("regions"@[0] != "library"@[0]);
            assert("regions"@ != "library"@);
            reveal_strlit("lodging");
            assert("regions"@[0] != "lodging"@[0]);
            assert("regions"@ != "lodging"@);
            reveal_strlit("painter");
            assert("regions"@[0] != "painter"@[0]);
            assert("regions"@ != "painter"@);
            reveal_strlit("parking");
            assert("regions"@[0] != "parking"@[0]);
            assert("regions"@ != "parking"@);
            reveal_strlit("plumber");
            assert("regions"@[0] != "plumber"@[0]);
            assert("regions"@ != "plumber"@);
            reveal_strlit("rv_park");
            assert("regions"@[1] != "rv_park"@[1]);
            assert("regions"@ != "rv_park"@);
            reveal_strlit("stadium");
            assert("regions"@[0] != "stadium"@[0]);
            assert("regions"@ != "stadium"@);
            reveal_strlit("storage");
            assert("regions"@[0] != "storage"@[0]);
            assert("regions"@ != "storage"@);
            reveal_strlit("country");
            assert("regions"@[0] != "country"@[0]);
            assert("regions"@ != "country"@);
            reveal_strlit("finance");
            assert("regions"@[0] != "finance"@[0]);
            assert("regions"@ != "finance"@);
            reveal_strlit("geocode");
            assert("regions"@[0] != "geocode"@[0]);
            assert("regions"@ != "geocode"@);
            reveal_strlit("premise");
            assert("regions"@[0] != "premise"@[0]);
            assert("regions"@ != "premise"@);
            reveal_strlit("address");
            assert("regions"@[0] != "address"@[0]);
            assert("regions"@ != "address"@);
            assert(PlaceType::from_wire_spec("regions"@) == Some(PlaceType::Regions));
            assert(PlaceType::from_wire_spec(v.wire_spec()) == Some(v));
        },
        PlaceType::Cities => {
            reveal_strlit("cities");
            assert(v.wire_spec() == "cities"@);
            reveal_strlit("bakery");
            assert("cities"@[0] != "bakery"@[0]);
            assert("cities"@ != "bakery"@);
            reveal_strlit("casino");
            assert("cities"@[1] != "casino"@[1]);
            assert("cities"@ != "casino"@);
            reveal_strlit("church");
            assert("cities"@[1] != "church"@[1]);
            assert("cities"@ != "church"@);
            reveal_strlit("doctor");
            assert("cities"@[0] != "doctor"@[0]);
            assert("cities"@ != "doctor"@);
            reveal_strlit("lawyer");
            assert("cities"@[0] != "lawyer"@[0]);
            assert("cities"@ != "lawyer"@);
            reveal_strlit("mosque");
            assert("cities"@[0] != "mosque"@[0]);
            assert("cities"@ != "mosque"@);
            reveal_strlit("museum");
            assert("cities"@[0] != "museum"@[0]);
            assert("cities"@ != "museum"@);
            reveal_strlit("police");
            assert("cities"@[0] != "police"@[0]);
            assert("cities"@ != "police"@);
            reveal_strlit("school");
            assert("cities"@[0] != "school"@[0]);
            assert("cities"@ != "school"@);
            reveal_strlit("health");
            assert("cities"@[0] != "health"@[0]);
            assert("cities"@ != "health"@);
            assert(PlaceType::from_wire_spec("cities"@) == Some(PlaceType::Cities));
            assert(PlaceType::from_wire_spec(v.wire_spec()) == Some(v));
        },
        _ => {},
    }
}

/// Decoding a place type wire code returns exactly the place type it came
/// from: the round trip holds for every member of the enumeration.
pub proof fn lemma_place_type_round_trip(v: PlaceType)
    ensures
        PlaceType::from_wire_spec(v.wire_spec()) == Some(v),
{
    match v {
        PlaceType::Accounting => lemma_round_trip_group0(v),
        PlaceType::Airport => lemma_round_trip_group0(v),
        PlaceType::AmusementPark => lemma_round_trip_group0(v),
        PlaceType::Aquarium => lemma_round_trip_group0(v),
        PlaceType::ArtGallery => lemma_round_trip_group0(v),
        PlaceType::Atm => lemma_round_trip_group0(v),
        PlaceType::Bakery => lemma_round_trip_group0(v),
        PlaceType::Bank => lemma_round_trip_group0(v),
        PlaceType::Bar => lemma_round_trip_group0(v),
        PlaceType::BeautySalon => lemma_round_trip_group0(v),
        PlaceType::BicycleStore => lemma_round_trip_group0(v),
        PlaceType::BookStore => lemma_round_trip_group0(v),
        PlaceType::BowlingAlley => lemma_round_trip_group0(v),
        PlaceType::BusStation => lemma_round_trip_group0(v),
        PlaceType::Cafe => lemma_round_trip_group0(v),
        PlaceType::Campground => lemma_round_trip_group0(v),
        PlaceType::CarDealer => lemma_round_trip_group0(v),
        PlaceType::CarRental => lemma_round_trip_group0(v),
        PlaceType::CarRepair => lemma_round_trip_group0(v),
        PlaceType::CarWash => lemma_round_trip_group0(v),
        PlaceType::Casino => lemma_round_trip_group0(v),
        PlaceType::Cemetery => lemma_round_trip_group0(v),
        PlaceType::Church => lemma_round_trip_group1(v),
        PlaceType::CityHall => lemma_round_trip_group1(v),
        PlaceType::ClothingStore => lemma_round_trip_group1(v),
        PlaceType::ConvenienceStore => lemma_round_trip_group1(v),
        PlaceType::Courthouse => lemma_round_trip_group1(v),
        PlaceType::Dentist => lemma_round_trip_group1(v),
        PlaceType::DepartmentStore => lemma_round_trip_group1(v),
        PlaceType::Doctor => lemma_round_trip_group1(v),
        PlaceType::DrugStore => lemma_round_trip_group1(v),
        PlaceType::Electrician => lemma_round_trip_group1(v),
        PlaceType::ElectronicsStore => lemma_round_trip_group1(v),
        PlaceType::Embassy => lemma_round_trip_group1(v),
        PlaceType::FireStation => lemma_round_trip_group1(v),
        PlaceType::Florist => lemma_round_trip_group1(v),
        PlaceType::FuneralHome => lemma_round_trip_group1(v),
        PlaceType::FurnitureStore => lemma_round_trip_group1(v),
        PlaceType::GasStation => lemma_round_trip_group1(v),
        PlaceType::GroceryOrSupermarket => lemma_round_trip_group1(v),
        PlaceType::Gym => lemma_round_trip_group2(v),
        PlaceType::HairCare => lemma_round_trip_group2(v),
        PlaceType::HardwareStore => lemma_round_trip_group2(v),
        PlaceType::HinduTemple => lemma_round_trip_group2(v),
        PlaceType::HomeGoodsStore => lemma_round_trip_group2(v),
        PlaceType::Hospital => lemma_round_trip_group2(v),
        PlaceType::InsuranceAgency => lemma_round_trip_group2(v),
        PlaceType::JewelryStore => lemma_round_trip_group2(v),
        PlaceType::Laundry => lemma_round_trip_group2(v),
        PlaceType::Lawyer => lemma_round_trip_group2(v),
        PlaceType::Library => lemma_round_trip_group2(v),
        PlaceType::LightRailStation => lemma_round_trip_group2(v),
        PlaceType::LiquorStore => lemma_round_trip_group3(v),
        PlaceType::LocalGovernmentOffice => lemma_round_trip_group3(v),
        PlaceType::Locksmith => lemma_round_trip_group3(v),
        PlaceType::Lodging => lemma_round_trip_group3(v),
        PlaceType::MealDelivery => lemma_round_trip_group3(v),
        PlaceType::MealTakeaway => lemma_round_trip_group3(v),
        PlaceType::Mosque => lemma_round_trip_group3(v),
        PlaceType::MovieRental => lemma_round_trip_group3(v),
        PlaceType::MovieTheater => lemma_round_trip_group3(v),
        PlaceType::MovingCompany => lemma_round_trip_group4(v),
        PlaceType::Museum => lemma_round_trip_group4(v),
        PlaceType::NightClub => lemma_round_trip_group4(v),
        PlaceType::Painter => lemma_round_trip_group4(v),
        PlaceType::Park => lemma_round_trip_group4(v),
        PlaceType::Parking => lemma_round_trip_group4(v),
        PlaceType::PetStore => lemma_round_trip_group4(v),
        PlaceType::Pharmacy => lemma_round_trip_group5(v),
        PlaceType::Physiotherapist => lemma_round_trip_group5(v),
        PlaceType::Plumber => lemma_round_trip_group5(v),
        PlaceType::PlusCode => lemma_round_trip_group5(v),
        PlaceType::Police => lemma_round_trip_group5(v),
        PlaceType::PostOffice => lemma_round_trip_group5(v),
        PlaceType::PrimarySchool => lemma_round_trip_group5(v),
        PlaceType::RealEstateAgency => lemma_round_trip_group5(v),
        PlaceType::Restaurant => lemma_round_trip_group6(v),
        PlaceType::RoofingContractor => lemma_round_trip_group6(v),
        PlaceType::RvPark => lemma_round_trip_group6(v),
        PlaceType::School => lemma_round_trip_group6(v),
        PlaceType::SecondarySchool => lemma_round_trip_group6(v),
        PlaceType::ShoeStore => lemma_round_trip_group7(v),
        PlaceType::ShoppingMall => lemma_round_trip_group7(v),
        PlaceType::Spa => lemma_round_trip_group7(v),
        PlaceType::Stadium => lemma_round_trip_group7(v),
        PlaceType::Storage => lemma_round_trip_group8(v),
        PlaceType::Store => lemma_round_trip_group8(v),
        PlaceType::SubwayStation => lemma_round_trip_group8(v),
        PlaceType::Supermarket => lemma_round_trip_group8(v),
        PlaceType::Synagogue => lemma_round_trip_group8(v),
        PlaceType::TaxiStand => lemma_round_trip_group8(v),
        PlaceType::TouristAttraction => lemma_round_trip_group9(v),
        PlaceType::TrainStation => lemma_round_trip_group9(v),
        PlaceType::TransitStation => lemma_round_trip_group9(v),
        PlaceType::TravelAgency => lemma_round_trip_group9(v),
        PlaceType::University => lemma_round_trip_group9(v),
        PlaceType::VeterinaryCare => lemma_round_trip_group9(v),
        PlaceType::Zoo => lemma_round_trip_group10(v),
        PlaceType::AdministrativeAreaLevel1 => lemma_round_trip_group10(v),
        PlaceType::AdministrativeAreaLevel2 => lemma_round_trip_group10(v),
        PlaceType::AdministrativeAreaLevel3 => lemma_round_trip_group10(v),
        PlaceType::AdministrativeAreaLevel4 => lemma_round_trip_group10(v),
        PlaceType::AdministrativeAreaLevel5 => lemma_round_trip_group10(v),
        PlaceType::Archipelago => lemma_round_trip_group10(v),
        PlaceType::ColloquialArea => lemma_round_trip_group10(v),
        PlaceType::Continent => lemma_round_trip_group10(v),
        PlaceType::Country => lemma_round_trip_group11(v),
        PlaceType::Establishment => lemma_round_trip_group11(v),
        PlaceType::Finance => lemma_round_trip_group11(v),
        PlaceType::Floor => lemma_round_trip_group11(v),
        PlaceType::Food => lemma_round_trip_group12(v),
        PlaceType::GeneralContractor => lemma_round_trip_group12(v),
        PlaceType::Geocode => lemma_round_trip_group12(v),
        PlaceType::Health => lemma_round_trip_group12(v),
        PlaceType::Intersection => lemma_round_trip_group12(v),
        PlaceType::Locality => lemma_round_trip_group13(v),
        PlaceType::NaturalFeature => lemma_round_trip_group13(v),
        PlaceType::Neighborhood => lemma_round_trip_group13(v),
        PlaceType::PlaceOfWorship => lemma_round_trip_group13(v),
        PlaceType::PointOfInterest => lemma_round_trip_group13(v),
        PlaceType::Political => lemma_round_trip_group13(v),
        PlaceType::PostBox => lemma_round_trip_group13(v),
        PlaceType::PostalCode => lemma_round_trip_group14(v),
        PlaceType::PostalCodePrefix => lemma_round_trip_group14(v),
        PlaceType::PostalCodeSuffix => lemma_round_trip_group14(v),
        PlaceType::PostalTown => lemma_round_trip_group14(v),
        PlaceType::Premise => lemma_round_trip_group15(v),
        PlaceType::Room => lemma_round_trip_group15(v),
        PlaceType::Route => lemma_round_trip_group15(v),
        PlaceType::StreetAddress => lemma_round_trip_group15(v),
        PlaceType::StreetNumber => lemma_round_trip_group15(v),
        PlaceType::Sublocality => lemma_round_trip_group16(v),
        PlaceType::SublocalityLevel1 => lemma_round_trip_group16(v),
        PlaceType::SublocalityLevel2 => lemma_round_trip_group16(v),
        PlaceType::SublocalityLevel3 => lemma_round_trip_group16(v),
        PlaceType::SublocalityLevel4 => lemma_round_trip_group16(v),
        PlaceType::SublocalityLevel5 => lemma_round_trip_group16(v),
        PlaceType::Subpremise => lemma_round_trip_group16(v),
        PlaceType::TownSquare => lemma_round_trip_group17(v),
        PlaceType::Address => lemma_round_trip_group17(v),
        PlaceType::Regions => lemma_round_trip_group18(v),
        PlaceType::Cities => lemma_round_trip_group18(v),
    }
}

/// The place type codec's wire codes are pairwise distinct, so the
/// mapping from variants to wire codes is a bijection onto the recognized
/// set.
pub proof fn lemma_place_type_wire_injective(a: PlaceType, b: PlaceType)
    requires
        a.wire_spec() == b.wire_spec(),
    ensures
        a == b,
{
    lemma_place_type_round_trip(a);
    lemma_place_type_round_trip(b);
}

} // verus!
