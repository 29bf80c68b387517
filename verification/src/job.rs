use vstd::prelude::*;

verus! {

/// What a contract carries.
#[derive(Debug, Clone, Copy, PartialEq, Eq, Structural)]
pub enum CargoType {
    Documents,
    Parts,
    Contraband,
}

/// The kind of ground a route crosses.
#[derive(Debug, Clone, Copy, PartialEq, Eq, Structural)]
pub enum Terrain {
    City,
    Industrial,
    Rural,
    Mountain,
}

impl Terrain {
    /// How hard the terrain is on a car.
    pub open spec fn spec_roughness(self) -> u8 {
        match self {
            Terrain::City => 1,
            Terrain::Industrial => 3,
            Terrain::Rural => 5,
            Terrain::Mountain => 8,
        }
    }

    #[verifier::when_used_as_spec(spec_roughness)]
    pub fn roughness(self) -> (r: u8)
        ensures
            r == self.spec_roughness(),
    {
        match self {
            Terrain::City => 1,
            Terrain::Industrial => 3,
            Terrain::Rural => 5,
            Terrain::Mountain => 8,
        }
    }
}

} // verus!

verus! {

/// A smuggling contract.
#[derive(Debug, Clone, PartialEq, Eq)]
pub struct Job {
    pub name: String,
    pub cargo: CargoType,
    pub terrain: Terrain,
    pub cargo_size: u8,
    pub payout: i32,
    pub heat: u8,
    pub distance: u8,
}

impl Job {
    pub fn new(
        name: &str,
        cargo: CargoType,
        terrain: Terrain,
        cargo_size: u8,
        payout: i32,
        heat: u8,
        distance: u8,
    ) -> (r: Self)
        ensures
            r.name@ == name@,
            r.cargo == cargo,
            r.terrain == terrain,
            r.cargo_size == cargo_size,
            r.payout == payout,
            r.heat == heat,
            r.distance == distance,
    {
        Job { name: name.to_owned(), cargo, terrain, cargo_size, payout, heat, distance }
    }

    /// An exact copy of the contract.
    pub fn duplicate(&self) -> (r: Self)
        ensures
            r == *self,
    {
        Job {
            name: self.name.clone(),
            cargo: self.cargo,
            terrain: self.terrain,
            cargo_size: self.cargo_size,
            payout: self.payout,
            heat: self.heat,
            distance: self.distance,
        }
    }
}

/// One line of the contract table.
#[derive(Debug, Clone, Copy)]
pub struct JobRow {
    pub name: &'static str,
    pub cargo: CargoType,
    pub terrain: Terrain,
    pub cargo_size: u8,
    pub payout: i32,
    pub heat: u8,
    pub distance: u8,
}

impl Job {
    /// The contract carries exactly the data of a table line.
    pub open spec fn matches_row(&self, row: JobRow) -> bool {
        &&& self.name@ == row.name@
        &&& self.cargo == row.cargo
        &&& self.terrain == row.terrain
        &&& self.cargo_size == row.cargo_size
        &&& self.payout == row.payout
        &&& self.heat == row.heat
        &&& self.distance == row.distance
    }
}

/// The contracts a new player is offered.
pub open spec fn starter_job_rows() -> Seq<JobRow> {
    seq![
        JobRow { name: "Downtown paper run", cargo: CargoType::Documents, terrain: Terrain::City,
            cargo_size: 1, payout: 300, heat: 2, distance: 3 },
        JobRow { name: "Industrial parts delivery", cargo: CargoType::Parts, terrain: Terrain::Industrial,
            cargo_size: 2, payout: 420, heat: 3, distance: 4 },
        JobRow { name: "Rural night drop", cargo: CargoType::Contraband, terrain: Terrain::Rural,
            cargo_size: 2, payout: 650, heat: 5, distance: 5 },
        JobRow { name: "Mountain pass emergency", cargo: CargoType::Contraband, terrain: Terrain::Mountain,
            cargo_size: 2, payout: 900, heat: 8, distance: 4 },
    ]
}

fn starter_job_row_list() -> (r: Vec<JobRow>)
    ensures
        r@ == starter_job_rows(),
{
    let r = vec![
        JobRow { name: "Downtown paper run", cargo: CargoType::Documents, terrain: Terrain::City,
            cargo_size: 1, payout: 300, heat: 2, distance: 3 },
        JobRow { name: "Industrial parts delivery", cargo: CargoType::Parts, terrain: Terrain::Industrial,
            cargo_size: 2, payout: 420, heat: 3, distance: 4 },
        JobRow { name: "Rural night drop", cargo: CargoType::Contraband, terrain: Terrain::Rural,
            cargo_size: 2, payout: 650, heat: 5, distance: 5 },
        JobRow { name: "Mountain pass emergency", cargo: CargoType::Contraband, terrain: Terrain::Mountain,
            cargo_size: 2, payout: 900, heat: 8, distance: 4 },
    ];
    assert(r@ == starter_job_rows());
    r
}

pub fn starter_jobs() -> (r: Vec<Job>)
    ensures
        r@.len() == starter_job_rows().len(),
        forall|i: int| 0 <= i < r@.len() ==> #[trigger] r@[i].matches_row(starter_job_rows()[i]),
{
    let rows = starter_job_row_list();
    let mut jobs: Vec<Job> = Vec::new();
    let mut i: usize = 0;
    while i < rows.len()
        invariant
            i <= rows@.len(),
            rows@ == starter_job_rows(),
            jobs@.len() == i,
            forall|k: int| 0 <= k < i ==> #[trigger] jobs@[k].matches_row(rows@[k]),
        decreases rows@.len() - i,
    {
        let row = rows[i];
        jobs.push(Job::new(row.name, row.cargo, row.terrain, row.cargo_size, row.payout, row.heat, row.distance));
        i += 1;
    }
    jobs
}

} // verus!
