use rustop::cpu::{mean_of, normalize_usages, ratio_permille_of, CpuMonitor};
use rustop::gpu::{assemble_device_stats, GpuMonitor};
use rustop::layout::{column_percentage, grid_columns, grid_rows};
use rustop::meter::Band;
use rustop::scheduler::{is_quit_key, poll_timeout_ms, tick_due, KeyInput};
use rustop::ui::{
    cpu_cell_model, cpu_gauge_model, cpu_grid, cpu_table_empty_message, gpu_card_model,
    gpu_panel_message, info_panel_text, memory_gauge_model, temp_line, VramModel,
};

#[test]
fn grid_geometry_small_terminal() {
    // 90 cells fit three 30-cell columns; 7 cores then need three rows.
    let columns = grid_columns(90, 7);
    assert_eq!(columns, 3);
    let rows = grid_rows(7, columns);
    assert_eq!(rows, 3);
    assert_eq!(column_percentage(columns), 33);
    // Narrower than one column still yields one column.
    assert_eq!(grid_columns(10, 4), 1);
    // Columns never exceed the core count.
    assert_eq!(grid_columns(300, 2), 2);
}

#[test]
fn grid_bounds_hold_across_sizes() {
    for width in [30u16, 45, 90, 200, 500] {
        for threads in [1usize, 2, 3, 7, 16, 64] {
            let c = grid_columns(width, threads);
            let r = grid_rows(threads, c);
            assert!(c >= 1 && c <= threads, "width {width}, threads {threads}");
            assert!(r * c >= threads, "width {width}, threads {threads}");
            assert!((r - 1) * c < threads, "width {width}, threads {threads}");
        }
    }
}

#[test]
fn grid_cells_map_row_major() {
    let usages: Vec<u32> = vec![100, 200, 300, 400, 500];
    let g = cpu_grid(65, &usages);
    assert_eq!(g.columns, 2);
    assert_eq!(g.rows, 3);
    assert_eq!(g.column_percentage, 50);
    assert_eq!(g.cells.len(), 3);
    for row in &g.cells {
        assert_eq!(row.len(), 2);
    }
    let cell = g.cells[1][1].as_ref().unwrap();
    assert_eq!(cell.label, "CPU 03:  40.0% ");
    assert_eq!(cell.band, Band::Elevated);
    // The sixth cell has no core behind it: the grid stays rectangular.
    assert!(g.cells[2][1].is_none());
}

#[test]
fn cpu_cell_label_shape() {
    let cell = cpu_cell_model(3, 425);
    assert_eq!(cell.label, "CPU 03:  42.5% ");
    assert_eq!(cell.band, Band::Elevated);
    let cell = cpu_cell_model(12, 1000);
    assert_eq!(cell.label, "CPU 12: 100.0% ");
    assert_eq!(cell.band, Band::Critical);
}

#[test]
fn cpu_gauge_label_is_width_five() {
    let gauge = cpu_gauge_model(42);
    assert_eq!(gauge.label, "  4.2%");
    assert_eq!(gauge.band, Band::Nominal);
    assert_eq!(gauge.permille, 42);
}

#[test]
fn memory_ratio_handles_zero_total() {
    // No division by zero: an unknown total reads as an empty gauge.
    assert_eq!(ratio_permille_of(123, 0), 0);
    // A full memory reads as a full gauge.
    assert_eq!(ratio_permille_of(7, 7), 1000);
    assert_eq!(ratio_permille_of(1, 2), 500);
}

#[test]
fn memory_gauge_labels() {
    let m = memory_gauge_model(0, 0);
    assert_eq!(m.label, "N/A");
    assert_eq!(m.permille, 0);
    let m = memory_gauge_model(1, 2);
    assert_eq!(m.label, "1.0 KB / 2.0 KB");
    assert_eq!(m.permille, 500);
    assert_eq!(m.band, Band::Elevated);
}

#[test]
fn info_panel_layout() {
    assert_eq!(info_panel_text(8, 1), "Threads: 8\nGPUs: 1\nRefresh: 500ms");
}

#[test]
fn empty_table_message() {
    assert_eq!(cpu_table_empty_message(), "No CPU data available");
}

#[test]
fn normalization_clamps_and_scales() {
    let raw: Vec<u32> = vec![0, 55, 100, 250];
    let n = normalize_usages(&raw);
    assert_eq!(n, vec![0, 550, 1000, 1000]);
    assert_eq!(mean_of(&n), 637);
    assert_eq!(mean_of(&Vec::new()), 0);
}

#[test]
fn cpu_monitor_first_snapshot_is_consistent() {
    let monitor = CpuMonitor::new();
    assert_eq!(monitor.thread_count(), monitor.usages().len());
    assert!(monitor.avg() <= 1000);
    for usage in monitor.usages() {
        assert!(*usage <= 1000);
    }
    let (used, total) = monitor.memory_usage();
    let ratio = monitor.memory_ratio();
    assert!(ratio <= 1000);
    if total == 0 {
        assert_eq!(ratio, 0);
    } else if used == total {
        assert_eq!(ratio, 1000);
    }
}

#[test]
fn gpu_unavailable_means_empty_list() {
    let monitor = GpuMonitor::new();
    if !monitor.nvml_available() {
        // Library init failed: the list must be empty and the message must
        // name the subsystem, not claim zero devices.
        assert!(monitor.stats().is_empty());
        assert_eq!(
            gpu_panel_message(monitor.nvml_available()),
            "NVML unavailable - GPU stats disabled"
        );
    }
}

#[test]
fn gpu_panel_distinguishes_empty_states() {
    assert_eq!(gpu_panel_message(true), "No NVIDIA GPUs detected");
    assert_eq!(gpu_panel_message(false), "NVML unavailable - GPU stats disabled");
}

#[test]
fn device_with_dead_temperature_sensor_keeps_its_entry() {
    let stats = assemble_device_stats(0, Some("Card".to_string()), Some(42), Some((100, 200)), None);
    assert_eq!(stats.index, 0);
    assert_eq!(stats.name, "Card");
    assert_eq!(stats.utilization, 42);
    assert_eq!(stats.memory_used, 100);
    assert_eq!(stats.memory_total, 200);
    assert_eq!(stats.temperature, None);
    let card = gpu_card_model(&stats);
    assert_eq!(card.identity, "GPU 0: Card");
    assert_eq!(card.load_prefix, "Use:  42% ");
    assert_eq!(card.temp, "Temp: N/A");
    match card.vram {
        VramModel::Usage { prefix, band, amounts, .. } => {
            assert_eq!(prefix, "Ram:  50% ");
            assert_eq!(amounts, " 100 B / 200 B");
            assert_eq!(band, Band::Elevated);
        }
        VramModel::Unavailable => panic!("memory was readable"),
    }
}

#[test]
fn device_fallbacks_fill_each_field() {
    let stats = assemble_device_stats(3, None, None, None, Some(65));
    assert_eq!(stats.name, "GPU 3");
    assert_eq!(stats.utilization, 0);
    assert_eq!(stats.memory_used, 0);
    assert_eq!(stats.memory_total, 0);
    assert_eq!(stats.temperature, Some(65));
    let card = gpu_card_model(&stats);
    assert_eq!(card.identity, "GPU 3: GPU 3");
    assert_eq!(card.load_prefix, "Use:   0% ");
    assert!(matches!(card.vram, VramModel::Unavailable));
    assert_eq!(card.temp, "Temp: 65°C");
}

#[test]
fn temperature_line_formats() {
    assert_eq!(temp_line(Some(0)), "Temp: 0°C");
    assert_eq!(temp_line(None), "Temp: N/A");
}

#[test]
fn tick_timing_decisions() {
    assert_eq!(poll_timeout_ms(0), 500);
    assert_eq!(poll_timeout_ms(200), 300);
    assert_eq!(poll_timeout_ms(500), 0);
    assert_eq!(poll_timeout_ms(700), 0);
    assert!(!tick_due(499));
    assert!(tick_due(500));
    assert!(tick_due(501));
}

#[test]
fn quit_keys_recognized() {
    assert!(is_quit_key(true, KeyInput::Function(10)));
    assert!(is_quit_key(true, KeyInput::Letter('q')));
    assert!(is_quit_key(true, KeyInput::Letter('Q')));
    assert!(!is_quit_key(true, KeyInput::Function(1)));
    assert!(!is_quit_key(true, KeyInput::Letter('x')));
    assert!(!is_quit_key(true, KeyInput::Other));
    // A release of a quit key is not a quit.
    assert!(!is_quit_key(false, KeyInput::Letter('q')));
}
