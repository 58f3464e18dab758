//! Presentation mapper: pure, fully deterministic assembly of the visual
//! model from the two snapshots — gauge ratios and labels, the per-core
//! grid with its cell strings, and the per-GPU card blocks. The model is
//! recomputed from scratch for every frame and carries no state of its own.

use vstd::prelude::*;

use crate::cpu::{ratio_permille, ratio_permille_of, usage_seq_bounded};
use crate::gpu::GpuStats;
use crate::layout::{
    column_percentage, column_percentage_spec, columns_spec, grid_columns, grid_rows, rows_spec,
};
use crate::meter::{
    band_of, bar_spec, make_bar_no_pct, percent3_label, percent3_spec, percent_label,
    percent_label_spec, usage_band, Band,
};
use crate::text::{push_zero_pad2, zero_pad2};
use crate::units::{format_bytes, format_bytes_from_kib, format_bytes_spec, kib_to_bytes};

verus! {

/// The CPU-average gauge: ratio (permille), severity band, and the
/// five-wide one-decimal percentage label.
pub struct CpuGaugeModel {
    pub permille: u32,
    pub band: Band,
    pub label: String,
}

/// Map the aggregate average (tenths of a percent, already in range by the
/// sampler's invariant) onto the gauge.
pub fn cpu_gauge_model(avg_tenths: u32) -> (m: CpuGaugeModel)
    requires
        avg_tenths <= 1000,
    ensures
        m.permille == avg_tenths,
        m.band == band_of(avg_tenths as nat),
        m.label@ == percent_label_spec(avg_tenths as nat),
{
    let band = usage_band(avg_tenths);
    let label = percent_label(avg_tenths);
    CpuGaugeModel { permille: avg_tenths, band, label }
}

/// The RAM gauge: clamped used/total ratio in permille, its band, and the
/// label — `N/A` while the total is unknown, else `<used> / <total>` with
/// both figures taken as KiB counts.
pub struct MemoryGaugeModel {
    pub permille: u64,
    pub band: Band,
    pub label: String,
}

/// Map the memory counters (KiB granularity) onto the gauge.
pub fn memory_gauge_model(used_kib: u64, total_kib: u64) -> (m: MemoryGaugeModel)
    ensures
        m.permille as nat == ratio_permille(used_kib as nat, total_kib as nat),
        m.band == band_of(ratio_permille(used_kib as nat, total_kib as nat)),
        total_kib == 0 ==> m.label@ == "N/A"@,
        total_kib != 0 ==> m.label@ == format_bytes_spec(kib_to_bytes(used_kib as nat)) + " / "@
            + format_bytes_spec(kib_to_bytes(total_kib as nat)),
{
    let permille = ratio_permille_of(used_kib, total_kib);
    let band = usage_band(if permille > 1000 {
        1000
    } else {
        permille as u32
    });
    let label = if total_kib == 0 {
        let mut s = String::new();
        s.append("N/A");
        proof {
            assert(s@ =~= ("N/A")@);
        }
        s
    } else {
        let mut s = format_bytes_from_kib(used_kib);
        s.append(" / ");
        let total_str = format_bytes_from_kib(total_kib);
        s.append(total_str.as_str());
        proof {
            assert(s@ =~= format_bytes_spec(kib_to_bytes(used_kib as nat)) + (" / ")@
                + format_bytes_spec(kib_to_bytes(total_kib as nat)));
        }
        s
    };
    MemoryGaugeModel { permille, band, label }
}

/// The info panel text: thread count, GPU count, and the fixed cadence.
pub open spec fn info_text_spec(threads: nat, gpus: nat) -> Seq<char> {
    "Threads: "@ + crate::text::dec_str(threads) + "\nGPUs: "@ + crate::text::dec_str(gpus)
        + "\nRefresh: 500ms"@
}

/// Render the info panel text.
pub fn info_panel_text(threads: usize, gpus: usize) -> (r: String)
    ensures
        r@ == info_text_spec(threads as nat, gpus as nat),
{
    let mut s = String::new();
    s.append("Threads: ");
    crate::text::push_dec(&mut s, threads as u64);
    s.append("\nGPUs: ");
    crate::text::push_dec(&mut s, gpus as u64);
    s.append("\nRefresh: 500ms");
    proof {
        assert(s@ =~= info_text_spec(threads as nat, gpus as nat));
    }
    s
}

/// Shown in place of the per-core table when no CPU data is available.
pub fn cpu_table_empty_message() -> (r: &'static str)
    ensures
        r@ == "No CPU data available"@,
{
    "No CPU data available"
}

/// Shown in the GPU panel when the device list is empty: which of the two
/// empty states holds is told by the availability flag.
pub fn gpu_panel_message(available: bool) -> (r: &'static str)
    ensures
        available ==> r@ == "No NVIDIA GPUs detected"@,
        !available ==> r@ == "NVML unavailable - GPU stats disabled"@,
{
    if available {
        "No NVIDIA GPUs detected"
    } else {
        "NVML unavailable - GPU stats disabled"
    }
}

/// One cell of the per-core grid: the `CPU nn: pp.p% ` label, the bar, and
/// the severity band that colors the bar.
pub struct CpuCellModel {
    pub label: String,
    pub bar: String,
    pub band: Band,
}

/// The cell label for core `idx` at `tenths` of a percent usage.
pub open spec fn cpu_cell_label_spec(idx: nat, tenths: nat) -> Seq<char> {
    "CPU "@ + zero_pad2(idx) + ": "@ + percent_label_spec(tenths) + " "@
}

/// Build one grid cell.
pub fn cpu_cell_model(idx: usize, tenths: u32) -> (m: CpuCellModel)
    requires
        tenths <= 1000,
    ensures
        m.label@ == cpu_cell_label_spec(idx as nat, tenths as nat),
        m.bar@ == bar_spec(tenths as nat),
        m.band == band_of(tenths as nat),
{
    let mut label = String::new();
    label.append("CPU ");
    push_zero_pad2(&mut label, idx as u64);
    label.append(": ");
    let pl = percent_label(tenths);
    label.append(pl.as_str());
    label.append(" ");
    proof {
        assert(label@ =~= cpu_cell_label_spec(idx as nat, tenths as nat));
    }
    let bar = make_bar_no_pct(tenths);
    let band = usage_band(tenths);
    CpuCellModel { label, bar, band }
}

/// What a grid position must hold: the cell for core `idx` when that core
/// exists, an empty cell otherwise (the grid stays rectangular even when
/// the last row is only partly filled).
pub open spec fn cell_ok(cell: Option<CpuCellModel>, idx: int, usages: Seq<u32>) -> bool {
    if 0 <= idx < usages.len() {
        match cell {
            Some(m) => m.label@ == cpu_cell_label_spec(idx as nat, usages[idx] as nat) && m.bar@
                == bar_spec(usages[idx] as nat) && m.band == band_of(usages[idx] as nat),
            None => false,
        }
    } else {
        cell is None
    }
}

/// The whole per-core grid: geometry plus a rectangular matrix of cells,
/// row-major, cell (r, c) showing core `r * columns + c`.
pub struct CpuGrid {
    pub columns: usize,
    pub rows: usize,
    pub column_percentage: u16,
    pub cells: Vec<Vec<Option<CpuCellModel>>>,
}

/// Build the grid for the given drawable width and usage sequence.
pub fn cpu_grid(width: u16, usages: &Vec<u32>) -> (g: CpuGrid)
    requires
        usage_seq_bounded(usages@),
    ensures
        g.columns as nat == columns_spec(width as nat, usages@.len()),
        g.rows as nat == rows_spec(usages@.len(), g.columns as nat),
        g.column_percentage as nat == column_percentage_spec(g.columns as nat),
        g.cells@.len() == g.rows,
        forall|r: int| 0 <= r < g.rows ==> #[trigger] g.cells@[r]@.len() == g.columns,
        forall|r: int, c: int|
            0 <= r < g.rows && 0 <= c < g.columns ==> cell_ok(
                #[trigger] g.cells@[r]@[c],
                r * g.columns as int + c,
                usages@,
            ),
{
    let n = usages.len();
    let columns = grid_columns(width, n);
    let rows = grid_rows(n, columns);
    let pct = column_percentage(columns);
    let mut cells: Vec<Vec<Option<CpuCellModel>>> = Vec::new();
    let mut idx: usize = 0;
    let mut r: usize = 0;
    while r < rows
        invariant
            r <= rows,
            columns >= 1,
            n == usages@.len(),
            usage_seq_bounded(usages@),
            cells@.len() == r,
            idx as int == (if r as int * columns as int <= n as int {
                r as int * columns as int
            } else {
                n as int
            }),
            forall|rr: int| 0 <= rr < r ==> #[trigger] cells@[rr]@.len() == columns,
            forall|rr: int, c: int|
                0 <= rr < r && 0 <= c < columns ==> cell_ok(
                    #[trigger] cells@[rr]@[c],
                    rr * columns as int + c,
                    usages@,
                ),
        decreases rows - r,
    {
        let mut rowv: Vec<Option<CpuCellModel>> = Vec::new();
        let mut c: usize = 0;
        while c < columns
            invariant
                c <= columns,
                columns >= 1,
                n == usages@.len(),
                usage_seq_bounded(usages@),
                rowv@.len() == c,
                idx as int == (if r as int * columns as int + c as int <= n as int {
                    r as int * columns as int + c as int
                } else {
                    n as int
                }),
                forall|cc: int|
                    0 <= cc < c ==> cell_ok(#[trigger] rowv@[cc], r * columns as int + cc, usages@),
            decreases columns - c,
        {
            if idx < n {
                let m = cpu_cell_model(idx, usages[idx]);
                rowv.push(Some(m));
                idx = idx + 1;
            } else {
                rowv.push(None);
            }
            c = c + 1;
        }
        cells.push(rowv);
        proof {
            assert((r + 1) as int * columns as int == r as int * columns as int
                + columns as int) by (nonlinear_arith);
            assert(forall|rr: int, c: int|
                0 <= rr < r + 1 && 0 <= c < columns ==> cell_ok(
                    #[trigger] cells@[rr]@[c],
                    rr * columns as int + c,
                    usages@,
                ));
        }
        r = r + 1;
    }
    CpuGrid { columns, rows, column_percentage: pct, cells }
}

/// One GPU card's memory line: `N/A` when the total is unknown, else the
/// percentage prefix, the colored bar, and the used/total byte figures.
pub enum VramModel {
    Unavailable,
    Usage { prefix: String, bar: String, band: Band, amounts: String },
}

/// The fixed 4-line GPU card: identity line, utilization line (prefix +
/// colored bar), memory line, temperature line.
pub struct GpuCardModel {
    pub identity: String,
    pub load_prefix: String,
    pub load_bar: String,
    pub load_band: Band,
    pub vram: VramModel,
    pub temp: String,
}

/// The identity line: index and name.
pub open spec fn identity_spec(index: nat, name: Seq<char>) -> Seq<char> {
    "GPU "@ + crate::text::dec_str(index) + ": "@ + name
}

/// The temperature line: the reading in °C, or `N/A` when the sensor gave
/// nothing — never a made-up zero.
pub open spec fn temp_line_spec(temperature: Option<u32>) -> Seq<char> {
    match temperature {
        Some(t) => "Temp: "@ + crate::text::dec_str(t as nat) + "°C"@,
        None => "Temp: N/A"@,
    }
}

/// The used/total percentage shown on the memory line, capped at what a
/// 64-bit figure can carry.
pub open spec fn vram_pct(used: nat, total: nat) -> nat
    recommends
        total > 0,
{
    if used * 100 / total > 0xffff_ffff_ffff_ffff {
        0xffff_ffff_ffff_ffff as nat
    } else {
        used * 100 / total
    }
}

/// What the memory line must hold for the given counters.
pub open spec fn vram_ok(v: VramModel, used: u64, total: u64) -> bool {
    if total == 0 {
        v is Unavailable
    } else {
        match v {
            VramModel::Usage { prefix, bar, band, amounts } => {
                let permille = ratio_permille(used as nat, total as nat);
                prefix@ == "Ram: "@ + percent3_spec(vram_pct(used as nat, total as nat)) + " "@
                    && bar@ == bar_spec(permille) && band == band_of(permille) && amounts@ == " "@
                    + format_bytes_spec(used as nat) + " / "@ + format_bytes_spec(total as nat)
            },
            VramModel::Unavailable => false,
        }
    }
}

/// What the whole card must hold for a device snapshot.
pub open spec fn gpu_card_ok(g: GpuCardModel, s: GpuStats) -> bool {
    let pct = if s.utilization > 100 {
        100nat
    } else {
        s.utilization as nat
    };
    g.identity@ == identity_spec(s.index as nat, s.name@) && g.load_prefix@ == "Use: "@
        + percent3_spec(pct) + " "@ && g.load_bar@ == bar_spec(pct * 10) && g.load_band == band_of(
        pct * 10,
    ) && vram_ok(g.vram, s.memory_used, s.memory_total) && g.temp@ == temp_line_spec(s.temperature)
}

/// Build the card model for one device snapshot.
pub fn gpu_card_model(s: &GpuStats) -> (g: GpuCardModel)
    ensures
        gpu_card_ok(g, *s),
{
    let mut identity = String::new();
    identity.append("GPU ");
    crate::text::push_dec(&mut identity, s.index as u64);
    identity.append(": ");
    identity.append(s.name.as_str());
    proof {
        assert(identity@ =~= identity_spec(s.index as nat, s.name@));
    }
    let pct: u32 = if s.utilization > 100 {
        100
    } else {
        s.utilization
    };
    let mut load_prefix = String::new();
    load_prefix.append("Use: ");
    let pl = percent3_label(pct);
    load_prefix.append(pl.as_str());
    load_prefix.append(" ");
    proof {
        assert(load_prefix@ =~= ("Use: ")@ + percent3_spec(pct as nat) + (" ")@);
    }
    let load_bar = make_bar_no_pct(pct * 10);
    let load_band = usage_band(pct * 10);
    let vram = vram_model(s.memory_used, s.memory_total);
    let temp = temp_line(s.temperature);
    GpuCardModel { identity, load_prefix, load_bar, load_band, vram, temp }
}

/// Build the memory line model for the given counters.
pub fn vram_model(used: u64, total: u64) -> (v: VramModel)
    ensures
        vram_ok(v, used, total),
{
    if total == 0 {
        return VramModel::Unavailable;
    }
    let permille = ratio_permille_of(used, total);
    let permille32: u32 = if permille > 1000 {
        1000
    } else {
        permille as u32
    };
    let pct: u64 = {
        let scaled: u128 = (used as u128) * 100;
        let q = scaled / (total as u128);
        proof {
            assert(q <= scaled / 1) by {
                vstd::arithmetic::div_mod::lemma_div_is_ordered_by_denominator(
                    scaled as int,
                    1,
                    total as int,
                );
            }
        }
        if q > 0xffff_ffff_ffff_ffff {
            u64::MAX
        } else {
            q as u64
        }
    };
    let mut prefix = String::new();
    prefix.append("Ram: ");
    let pl = percent3_label_wide(pct);
    prefix.append(pl.as_str());
    prefix.append(" ");
    proof {
        assert(prefix@ =~= ("Ram: ")@ + percent3_spec(vram_pct(used as nat, total as nat)) + (
        " ")@);
    }
    let bar = make_bar_no_pct(permille32);
    let band = usage_band(permille32);
    let mut amounts = String::new();
    amounts.append(" ");
    let used_str = format_bytes(used);
    amounts.append(used_str.as_str());
    amounts.append(" / ");
    let total_str = format_bytes(total);
    amounts.append(total_str.as_str());
    proof {
        assert(amounts@ =~= (" ")@ + format_bytes_spec(used as nat) + (" / ")@ + format_bytes_spec(
            total as nat,
        ));
    }
    VramModel::Usage { prefix, bar, band, amounts }
}

/// Width-three percentage label for a value that may be large.
fn percent3_label_wide(pct: u64) -> (r: String)
    ensures
        r@ == percent3_spec(pct as nat),
{
    let mut s = String::new();
    if pct < 1000 {
        crate::text::push_padded_dec(&mut s, pct, 3);
    } else {
        crate::text::push_dec(&mut s, pct);
        proof {
            crate::text::lemma_dec_len_small(pct as nat);
        }
    }
    s.append("%");
    proof {
        reveal_strlit("%");
        assert(s@ =~= percent3_spec(pct as nat));
    }
    s
}

/// Build the temperature line.
pub fn temp_line(temperature: Option<u32>) -> (r: String)
    ensures
        r@ == temp_line_spec(temperature),
{
    match temperature {
        Some(t) => {
            let mut s = String::new();
            s.append("Temp: ");
            crate::text::push_dec(&mut s, t as u64);
            s.append("°C");
            proof {
                assert(s@ =~= temp_line_spec(Some(t)));
            }
            s
        },
        None => {
            let mut s = String::new();
            s.append("Temp: N/A");
            proof {
                assert(s@ =~= temp_line_spec(None::<u32>));
            }
            s
        },
    }
}

} // verus!
