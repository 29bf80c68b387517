use vstd::prelude::*;

use crate::car::{Car, Drivetrain, EngineSpec, VehicleSpec};
use crate::loot::LootRarity;

verus! {

/// Every car the catalog knows.
#[derive(Debug, Clone, Copy, PartialEq, Eq, Structural)]
#[allow(non_camel_case_types)]
pub enum CarKind {
    HondaCivic1998DxSedan,
    FordRanger1997Xl,
    ToyotaCorolla1993Dx,
    VolvoV70_1999TurboAwd,
    JeepCherokee1996Sport,
    ToyotaLandCruiser1995,
}

/// One line of the car table: game stats, then the real specification.
#[derive(Debug, Clone, Copy)]
pub struct CarRow {
    pub name: &'static str,
    pub rarity: LootRarity,
    pub model_year: u16,
    pub value: i32,
    pub cargo_capacity: u8,
    pub stealth: u8,
    pub drivetrain: Drivetrain,
    pub make: &'static str,
    pub model: &'static str,
    pub trim: &'static str,
    pub body_style: &'static str,
    pub transmission: &'static str,
    pub curb_weight_lbs: u16,
    pub cargo_volume_cu_ft: &'static str,
    pub fuel_capacity_gal: &'static str,
    pub engine_layout: &'static str,
    pub displacement_liters: &'static str,
    pub aspiration: &'static str,
    pub fuel: &'static str,
    pub horsepower: u16,
    pub horsepower_rpm: u16,
    pub torque_lb_ft: u16,
    pub torque_rpm: u16,
}

impl CarKind {
    /// The table line of this car.
    pub open spec fn spec_row(self) -> CarRow {
        match self {
            CarKind::HondaCivic1998DxSedan => CarRow {
                name: "1998 Honda Civic DX Sedan", rarity: LootRarity::Common, model_year: 1998, value: 1800,
                cargo_capacity: 3, stealth: 8, drivetrain: Drivetrain::Fwd, make: "Honda", model: "Civic",
                trim: "DX", body_style: "4-door sedan", transmission: "4-speed automatic", curb_weight_lbs: 2339,
                cargo_volume_cu_ft: "11.9", fuel_capacity_gal: "11.9", engine_layout: "inline-4 SOHC",
                displacement_liters: "1.6", aspiration: "naturally aspirated", fuel: "gasoline", horsepower: 106,
                horsepower_rpm: 6200, torque_lb_ft: 103, torque_rpm: 4600,
            },
            CarKind::FordRanger1997Xl => CarRow {
                name: "1997 Ford Ranger XL", rarity: LootRarity::Common, model_year: 1997, value: 2100,
                cargo_capacity: 5, stealth: 6, drivetrain: Drivetrain::Rwd, make: "Ford", model: "Ranger",
                trim: "XL", body_style: "2-door regular cab pickup", transmission: "5-speed manual", curb_weight_lbs: 2900,
                cargo_volume_cu_ft: "open bed", fuel_capacity_gal: "16.5", engine_layout: "inline-4",
                displacement_liters: "2.3", aspiration: "naturally aspirated", fuel: "gasoline", horsepower: 112,
                horsepower_rpm: 4800, torque_lb_ft: 135, torque_rpm: 2400,
            },
            CarKind::ToyotaCorolla1993Dx => CarRow {
                name: "1993 Toyota Corolla DX", rarity: LootRarity::Common, model_year: 1993, value: 1500,
                cargo_capacity: 2, stealth: 9, drivetrain: Drivetrain::Fwd, make: "Toyota", model: "Corolla",
                trim: "DX", body_style: "4-door sedan", transmission: "3-speed automatic", curb_weight_lbs: 2370,
                cargo_volume_cu_ft: "12.7", fuel_capacity_gal: "13.2", engine_layout: "inline-4",
                displacement_liters: "1.6", aspiration: "naturally aspirated", fuel: "gasoline", horsepower: 105,
                horsepower_rpm: 5800, torque_lb_ft: 100, torque_rpm: 4800,
            },
            CarKind::VolvoV70_1999TurboAwd => CarRow {
                name: "1999 Volvo V70 AWD", rarity: LootRarity::Uncommon, model_year: 1999, value: 3600,
                cargo_capacity: 6, stealth: 7, drivetrain: Drivetrain::Awd, make: "Volvo", model: "V70",
                trim: "AWD", body_style: "5-door wagon", transmission: "4-speed automatic", curb_weight_lbs: 3500,
                cargo_volume_cu_ft: "37.1", fuel_capacity_gal: "18.5", engine_layout: "inline-5",
                displacement_liters: "2.4", aspiration: "light-pressure turbo", fuel: "gasoline", horsepower: 190,
                horsepower_rpm: 5100, torque_lb_ft: 199, torque_rpm: 1800,
            },
            CarKind::JeepCherokee1996Sport => CarRow {
                name: "1996 Jeep Cherokee Sport", rarity: LootRarity::Uncommon, model_year: 1996, value: 3900,
                cargo_capacity: 5, stealth: 5, drivetrain: Drivetrain::FourWd, make: "Jeep", model: "Cherokee",
                trim: "Sport", body_style: "4-door SUV", transmission: "5-speed manual", curb_weight_lbs: 3200,
                cargo_volume_cu_ft: "35.0", fuel_capacity_gal: "20.0", engine_layout: "inline-6",
                displacement_liters: "4.0", aspiration: "naturally aspirated", fuel: "gasoline", horsepower: 190,
                horsepower_rpm: 4600, torque_lb_ft: 225, torque_rpm: 3000,
            },
            CarKind::ToyotaLandCruiser1995 => CarRow {
                name: "1995 Toyota Land Cruiser", rarity: LootRarity::Rare, model_year: 1995, value: 7800,
                cargo_capacity: 7, stealth: 4, drivetrain: Drivetrain::FourWd, make: "Toyota", model: "Land Cruiser",
                trim: "Base", body_style: "4-door SUV", transmission: "4-speed automatic", curb_weight_lbs: 4760,
                cargo_volume_cu_ft: "44.0", fuel_capacity_gal: "25.1", engine_layout: "inline-6",
                displacement_liters: "4.5", aspiration: "naturally aspirated", fuel: "gasoline", horsepower: 212,
                horsepower_rpm: 4600, torque_lb_ft: 275, torque_rpm: 3200,
            },
        }
    }

    pub fn row(self) -> (r: CarRow)
        ensures
            r == self.spec_row(),
    {
        match self {
            CarKind::HondaCivic1998DxSedan => CarRow {
                name: "1998 Honda Civic DX Sedan", rarity: LootRarity::Common, model_year: 1998, value: 1800,
                cargo_capacity: 3, stealth: 8, drivetrain: Drivetrain::Fwd, make: "Honda", model: "Civic",
                trim: "DX", body_style: "4-door sedan", transmission: "4-speed automatic", curb_weight_lbs: 2339,
                cargo_volume_cu_ft: "11.9", fuel_capacity_gal: "11.9", engine_layout: "inline-4 SOHC",
                displacement_liters: "1.6", aspiration: "naturally aspirated", fuel: "gasoline", horsepower: 106,
                horsepower_rpm: 6200, torque_lb_ft: 103, torque_rpm: 4600,
            },
            CarKind::FordRanger1997Xl => CarRow {
                name: "1997 Ford Ranger XL", rarity: LootRarity::Common, model_year: 1997, value: 2100,
                cargo_capacity: 5, stealth: 6, drivetrain: Drivetrain::Rwd, make: "Ford", model: "Ranger",
                trim: "XL", body_style: "2-door regular cab pickup", transmission: "5-speed manual", curb_weight_lbs: 2900,
                cargo_volume_cu_ft: "open bed", fuel_capacity_gal: "16.5", engine_layout: "inline-4",
                displacement_liters: "2.3", aspiration: "naturally aspirated", fuel: "gasoline", horsepower: 112,
                horsepower_rpm: 4800, torque_lb_ft: 135, torque_rpm: 2400,
            },
            CarKind::ToyotaCorolla1993Dx => CarRow {
                name: "1993 Toyota Corolla DX", rarity: LootRarity::Common, model_year: 1993, value: 1500,
                cargo_capacity: 2, stealth: 9, drivetrain: Drivetrain::Fwd, make: "Toyota", model: "Corolla",
                trim: "DX", body_style: "4-door sedan", transmission: "3-speed automatic", curb_weight_lbs: 2370,
                cargo_volume_cu_ft: "12.7", fuel_capacity_gal: "13.2", engine_layout: "inline-4",
                displacement_liters: "1.6", aspiration: "naturally aspirated", fuel: "gasoline", horsepower: 105,
                horsepower_rpm: 5800, torque_lb_ft: 100, torque_rpm: 4800,
            },
            CarKind::VolvoV70_1999TurboAwd => CarRow {
                name: "1999 Volvo V70 AWD", rarity: LootRarity::Uncommon, model_year: 1999, value: 3600,
                cargo_capacity: 6, stealth: 7, drivetrain: Drivetrain::Awd, make: "Volvo", model: "V70",
                trim: "AWD", body_style: "5-door wagon", transmission: "4-speed automatic", curb_weight_lbs: 3500,
                cargo_volume_cu_ft: "37.1", fuel_capacity_gal: "18.5", engine_layout: "inline-5",
                displacement_liters: "2.4", aspiration: "light-pressure turbo", fuel: "gasoline", horsepower: 190,
                horsepower_rpm: 5100, torque_lb_ft: 199, torque_rpm: 1800,
            },
            CarKind::JeepCherokee1996Sport => CarRow {
                name: "1996 Jeep Cherokee Sport", rarity: LootRarity::Uncommon, model_year: 1996, value: 3900,
                cargo_capacity: 5, stealth: 5, drivetrain: Drivetrain::FourWd, make: "Jeep", model: "Cherokee",
                trim: "Sport", body_style: "4-door SUV", transmission: "5-speed manual", curb_weight_lbs: 3200,
                cargo_volume_cu_ft: "35.0", fuel_capacity_gal: "20.0", engine_layout: "inline-6",
                displacement_liters: "4.0", aspiration: "naturally aspirated", fuel: "gasoline", horsepower: 190,
                horsepower_rpm: 4600, torque_lb_ft: 225, torque_rpm: 3000,
            },
            CarKind::ToyotaLandCruiser1995 => CarRow {
                name: "1995 Toyota Land Cruiser", rarity: LootRarity::Rare, model_year: 1995, value: 7800,
                cargo_capacity: 7, stealth: 4, drivetrain: Drivetrain::FourWd, make: "Toyota", model: "Land Cruiser",
                trim: "Base", body_style: "4-door SUV", transmission: "4-speed automatic", curb_weight_lbs: 4760,
                cargo_volume_cu_ft: "44.0", fuel_capacity_gal: "25.1", engine_layout: "inline-6",
                displacement_liters: "4.5", aspiration: "naturally aspirated", fuel: "gasoline", horsepower: 212,
                horsepower_rpm: 4600, torque_lb_ft: 275, torque_rpm: 3200,
            },
        }
    }

    /// A fresh car of this kind, in full condition and without upgrades.
    pub fn car(self) -> (r: Car)
        ensures
            r.matches_row(self.spec_row()),
    {
        let row = self.row();
        let spec = VehicleSpec {
            make: row.make.to_owned(),
            model: row.model.to_owned(),
            trim: row.trim.to_owned(),
            body_style: row.body_style.to_owned(),
            transmission: row.transmission.to_owned(),
            curb_weight_lbs: row.curb_weight_lbs,
            cargo_volume_cu_ft: row.cargo_volume_cu_ft.to_owned(),
            fuel_capacity_gal: row.fuel_capacity_gal.to_owned(),
            engine: EngineSpec {
                layout: row.engine_layout.to_owned(),
                displacement_liters: row.displacement_liters.to_owned(),
                aspiration: row.aspiration.to_owned(),
                fuel: row.fuel.to_owned(),
                horsepower: row.horsepower,
                horsepower_rpm: row.horsepower_rpm,
                torque_lb_ft: row.torque_lb_ft,
                torque_rpm: row.torque_rpm,
            },
        };
        Car::new(
            row.name,
            row.rarity,
            row.model_year,
            row.value,
            row.cargo_capacity,
            row.stealth,
            row.drivetrain,
            spec,
        )
    }
}

/// The cars match, in order, the table lines of `kinds`.
pub open spec fn cars_match_kinds(cars: Seq<Car>, kinds: Seq<CarKind>) -> bool {
    &&& cars.len() == kinds.len()
    &&& forall|i: int| 0 <= i < cars.len() ==> #[trigger] cars[i].matches_row(kinds[i].spec_row())
}

/// The cars a new player may start with.
pub open spec fn starter_kinds() -> Seq<CarKind> {
    seq![CarKind::HondaCivic1998DxSedan, CarKind::FordRanger1997Xl]
}

/// The cars the car market deals in, in catalog order.
pub open spec fn market_kinds() -> Seq<CarKind> {
    seq![
        CarKind::ToyotaCorolla1993Dx,
        CarKind::FordRanger1997Xl,
        CarKind::VolvoV70_1999TurboAwd,
        CarKind::JeepCherokee1996Sport,
        CarKind::ToyotaLandCruiser1995,
    ]
}

pub fn starter_kind_list() -> (r: Vec<CarKind>)
    ensures
        r@ == starter_kinds(),
{
    let r = vec![CarKind::HondaCivic1998DxSedan, CarKind::FordRanger1997Xl];
    assert(r@ == starter_kinds());
    r
}

pub fn market_kind_list() -> (r: Vec<CarKind>)
    ensures
        r@ == market_kinds(),
{
    let r = vec![
        CarKind::ToyotaCorolla1993Dx,
        CarKind::FordRanger1997Xl,
        CarKind::VolvoV70_1999TurboAwd,
        CarKind::JeepCherokee1996Sport,
        CarKind::ToyotaLandCruiser1995,
    ];
    assert(r@ == market_kinds());
    r
}

/// Fresh cars of the given kinds, in order.
pub fn cars_of_kinds(kinds: &Vec<CarKind>) -> (r: Vec<Car>)
    ensures
        cars_match_kinds(r@, kinds@),
{
    let mut cars: Vec<Car> = Vec::new();
    let mut i: usize = 0;
    while i < kinds.len()
        invariant
            i <= kinds.len(),
            cars_match_kinds(cars@, kinds@.take(i as int)),
        decreases kinds.len() - i,
    {
        cars.push(kinds[i].car());
        i += 1;
    }
    assert(kinds@.take(kinds.len() as int) == kinds@);
    cars
}

pub fn starter_car_catalog() -> (r: Vec<Car>)
    ensures
        cars_match_kinds(r@, starter_kinds()),
{
    cars_of_kinds(&starter_kind_list())
}

pub fn market_car_catalog() -> (r: Vec<Car>)
    ensures
        cars_match_kinds(r@, market_kinds()),
{
    cars_of_kinds(&market_kind_list())
}

} // verus!
