# ddd_core

The simulation core of Dead Drop Drive, a terminal car-smuggling roguelike, written in Verus.
Every rule of the game is an executable function with a contract that Verus proves.

- `src/rng.rs`: the seeded generator behind every roll, specified as a linear congruential step.
- `src/balance.rs`: the tuning numbers and the conditions under which they can be computed.
- `src/job.rs`, `src/car.rs`, `src/car_table.rs`, `src/loot.rs`: contracts, cars, upgrades,
  loot and their data tables.
- `src/market.rs`: the weighted, de-duplicated stocking shared by the black market and the
  car market.
- `src/route.rs`: encounter previews and resolutions, and whole-job driving.
- `src/route_run.rs`: the segment-by-segment route state machine.
- `src/garage.rs`: cash, heat, inventory, repairs, installs, trading.
- `src/laws.rs`: properties that span functions (market shape, odds that fall with heat and
  wear, previews that match resolutions, sale values, upgrade round trips).
- `app/`: the Ratatui/Crossterm terminal front end.
