use simulation_station::NoSim;
use simulation_station::simple_grid::CELL_COUNT;
use simulation_station::simple_grid::Grid;
use simulation_station::simple_grid::PixelFillSim;

#[test]
fn grid_new_allocates_width_times_height_cells() {
    let g: Grid<u8> = Grid::new(4, 3);
    assert_eq!(g.width, 4);
    assert_eq!(g.height, 3);
    assert_eq!(g.cells.len(), 12);
}

#[test]
fn fill_sim_starts_empty_and_lights_one_cell_per_update() {
    let mut sim = PixelFillSim::new();
    assert_eq!(sim.filled(), 0);
    assert_eq!(sim.total(), CELL_COUNT);
    sim.update();
    sim.update();
    assert_eq!(sim.filled(), 2);
    assert_eq!(sim.grid.cells[0], 255);
    assert_eq!(sim.grid.cells[1], 255);
    assert_eq!(sim.grid.cells[2], 0);
}

#[test]
fn fill_sim_update_saturates_at_the_last_cell() {
    let mut sim = PixelFillSim::new();
    sim.update_many(CELL_COUNT as u64 + 17);
    assert_eq!(sim.filled(), CELL_COUNT);
    sim.update();
    assert_eq!(sim.filled(), CELL_COUNT);
}

#[test]
fn fill_sim_bulk_update_matches_repeated_single_updates() {
    let mut a = PixelFillSim::new();
    let mut b = PixelFillSim::new();
    a.update_many(1000);
    for _ in 0..1000 {
        b.update();
    }
    assert_eq!(a.filled(), b.filled());
    assert_eq!(a.grid.cells, b.grid.cells);
}

#[test]
fn fill_sim_render_colors_lit_and_dark_cells() {
    let mut sim = PixelFillSim::new();
    sim.update();
    sim.update();
    let mut buffer: Vec<u8> = Vec::new();
    sim.render(&mut buffer);
    assert_eq!(buffer.len(), 360_000);
    assert_eq!(&buffer[0..3], &[0, 255, 255]);
    assert_eq!(&buffer[3..6], &[0, 255, 255]);
    assert_eq!(&buffer[6..9], &[20, 20, 20]);
    assert_eq!(&buffer[359_997..360_000], &[20, 20, 20]);
}

#[test]
fn fill_sim_reset_returns_to_the_start() {
    let mut sim = PixelFillSim::new();
    sim.update_many(5000);
    sim.reset();
    assert_eq!(sim.filled(), 0);
    assert!(sim.grid.cells.iter().all(|&c| c == 0));
}

#[test]
fn fill_sim_reports_its_name() {
    let sim = PixelFillSim::new();
    assert_eq!(sim.name(), "Simple Pixel Fill");
}

#[test]
fn no_sim_blacks_out_whatever_buffer_it_is_given() {
    let no = NoSim;
    assert_eq!(no.name(), "None");
    let mut buffer: Vec<u8> = vec![9; 5];
    no.render(&mut buffer);
    assert_eq!(buffer.len(), 360_000);
    assert!(buffer.iter().all(|&b| b == 0));
}
