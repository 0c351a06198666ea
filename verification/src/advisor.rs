//! Local LLM recommendations by hardware tier.
use vstd::prelude::*;

use crate::model::Gauge;
use crate::text::{contains_seq, lowercase, push_str, str_contains, str_equals, to_lowercase};

verus! {

/// The recommended model of a hardware tier. Sizes are in tenths of a gigabyte.
#[derive(Debug, Clone, Copy)]
pub struct TierModel {
    pub name: &'static str,
    pub quant: &'static str,
    pub aa_score: Option<u32>,
    pub size_tenths_gb: u32,
    pub speed: &'static str,
    pub why: &'static str,
    pub install: &'static str,
}

/// The highest hardware tier.
pub const MAX_TIER: u8 = 9;

/// The recommended model of each tier as plain values: name, quantization, Artificial
/// Analysis score (where known), size in tenths of a gigabyte, speed, reason and install
/// command. Tiers above 9 count as 9.
pub open spec fn tier_row(t: u8) -> (Seq<char>, Seq<char>, Option<u32>, u32, Seq<char>, Seq<char>, Seq<char>) {
    if t == 0 {
        ("Qwen3 4B"@, "Q4_K_M"@, None, 25, "Fast (>30 tok/s)"@, "Lightweight 4B; best choice for sub-6 GB EIM hardware"@, "ollama run qwen3:4b"@)
    } else if t == 1 {
        ("Qwen3.5 9B"@, "Q4_K_M"@, Some(27), 54, "Fast (>30 tok/s)"@, "Highest AA score in the 6–9 GB EIM tier; fits cleanly"@, "ollama run qwen3.5:9b"@)
    } else if t == 2 {
        ("gpt-oss 20B"@, "MXFP4"@, Some(24), 110, "Usable (10–30 tok/s)"@, "OpenAI open-weight 20B at efficient MXFP4; strong quality for 10–14 GB EIM"@, "ollama run gpt-oss:20b"@)
    } else if t == 3 {
        ("Qwen3.6-27B"@, "Q4_K_M"@, Some(37), 162, "Usable (10–30 tok/s)"@, "Highest AA score for 16–20 GB EIM; use llama-cli (Ollama not yet supported)"@, "llama-cli -hf unsloth/Qwen3.6-27B-GGUF:UD-Q4_K_XL"@)
    } else if t == 4 {
        ("Qwen3.6-35B-A3B"@, "Q4_K_M"@, Some(43), 210, "Usable (10–30 tok/s)"@, "MoE 35B — highest AA score across all tiers; runs at 3B active-param speed"@, "llama-cli -hf unsloth/Qwen3.6-35B-A3B-GGUF:UD-Q4_K_XL"@)
    } else if t == 5 {
        ("Qwen3.6-35B-A3B"@, "Q6_K"@, Some(43), 280, "Usable (10–30 tok/s)"@, "Same top MoE at higher quant; better fidelity for 30–40 GB EIM"@, "llama-cli -hf unsloth/Qwen3.6-35B-A3B-GGUF:UD-Q6_K"@)
    } else if t == 6 {
        ("Nemotron 3 Super"@, "Q4_K_M"@, Some(36), 470, "Slow (2–10 tok/s)"@, "Highest AA score in the 45–65 GB EIM tier"@, "ollama run nemotron3:super"@)
    } else if t == 7 {
        ("Qwen3.5-122B-A10B"@, "Q4_K_M"@, Some(42), 730, "Slow (2–10 tok/s)"@, "MoE 122B with AA score 42; best available for 70–95 GB EIM"@, "ollama run qwen3.5:122b-a10b-q4_k_m"@)
    } else if t == 8 {
        ("Qwen3.5-122B-A10B"@, "Q6_K"@, Some(42), 970, "Slow (2–10 tok/s)"@, "Higher-quant 122B for better fidelity on 100–150 GB EIM machines"@, "ollama run qwen3.5:122b-a10b-q6_k"@)
    } else {
        ("Qwen3.5-397B-A17B"@, "Q4_K_M"@, None, 2380, "Slow (2–10 tok/s)"@, "Frontier-class MoE; at hardware ceiling — no stretch above T9"@, "ollama run qwen3.5:397b-a17b-q4_k_m"@)
    }
}

/// Best model pick per tier, ranked by Artificial Analysis Intelligence Index.
pub fn best_for_tier(tier: u8) -> (m: TierModel)
    ensures
        (m.name@, m.quant@, m.aa_score, m.size_tenths_gb, m.speed@, m.why@, m.install@) == tier_row(tier),
{
    match tier {
        0 => TierModel {
            name: "Qwen3 4B",
            quant: "Q4_K_M",
            aa_score: None,
            size_tenths_gb: 25,
            speed: "Fast (>30 tok/s)",
            why: "Lightweight 4B; best choice for sub-6 GB EIM hardware",
            install: "ollama run qwen3:4b",
        },
        1 => TierModel {
            name: "Qwen3.5 9B",
            quant: "Q4_K_M",
            aa_score: Some(27),
            size_tenths_gb: 54,
            speed: "Fast (>30 tok/s)",
            why: "Highest AA score in the 6–9 GB EIM tier; fits cleanly",
            install: "ollama run qwen3.5:9b",
        },
        2 => TierModel {
            name: "gpt-oss 20B",
            quant: "MXFP4",
            aa_score: Some(24),
            size_tenths_gb: 110,
            speed: "Usable (10–30 tok/s)",
            why: "OpenAI open-weight 20B at efficient MXFP4; strong quality for 10–14 GB EIM",
            install: "ollama run gpt-oss:20b",
        },
        3 => TierModel {
            name: "Qwen3.6-27B",
            quant: "Q4_K_M",
            aa_score: Some(37),
            size_tenths_gb: 162,
            speed: "Usable (10–30 tok/s)",
            why: "Highest AA score for 16–20 GB EIM; use llama-cli (Ollama not yet supported)",
            install: "llama-cli -hf unsloth/Qwen3.6-27B-GGUF:UD-Q4_K_XL",
        },
        4 => TierModel {
            name: "Qwen3.6-35B-A3B",
            quant: "Q4_K_M",
            aa_score: Some(43),
            size_tenths_gb: 210,
            speed: "Usable (10–30 tok/s)",
            why: "MoE 35B — highest AA score across all tiers; runs at 3B active-param speed",
            install: "llama-cli -hf unsloth/Qwen3.6-35B-A3B-GGUF:UD-Q4_K_XL",
        },
        5 => TierModel {
            name: "Qwen3.6-35B-A3B",
            quant: "Q6_K",
            aa_score: Some(43),
            size_tenths_gb: 280,
            speed: "Usable (10–30 tok/s)",
            why: "Same top MoE at higher quant; better fidelity for 30–40 GB EIM",
            install: "llama-cli -hf unsloth/Qwen3.6-35B-A3B-GGUF:UD-Q6_K",
        },
        6 => TierModel {
            name: "Nemotron 3 Super",
            quant: "Q4_K_M",
            aa_score: Some(36),
            size_tenths_gb: 470,
            speed: "Slow (2–10 tok/s)",
            why: "Highest AA score in the 45–65 GB EIM tier",
            install: "ollama run nemotron3:super",
        },
        7 => TierModel {
            name: "Qwen3.5-122B-A10B",
            quant: "Q4_K_M",
            aa_score: Some(42),
            size_tenths_gb: 730,
            speed: "Slow (2–10 tok/s)",
            why: "MoE 122B with AA score 42; best available for 70–95 GB EIM",
            install: "ollama run qwen3.5:122b-a10b-q4_k_m",
        },
        8 => TierModel {
            name: "Qwen3.5-122B-A10B",
            quant: "Q6_K",
            aa_score: Some(42),
            size_tenths_gb: 970,
            speed: "Slow (2–10 tok/s)",
            why: "Higher-quant 122B for better fidelity on 100–150 GB EIM machines",
            install: "ollama run qwen3.5:122b-a10b-q6_k",
        },
        _ => TierModel {
            name: "Qwen3.5-397B-A17B",
            quant: "Q4_K_M",
            aa_score: None,
            size_tenths_gb: 2380,
            speed: "Slow (2–10 tok/s)",
            why: "Frontier-class MoE; at hardware ceiling — no stretch above T9",
            install: "ollama run qwen3.5:397b-a17b-q4_k_m",
        },
    }
}

/// The order keys of the tier boundaries, in gigabytes of effective inference memory:
/// 6, 10, 16, 22, 30, 45, 70, 100 and 200 as `f64` bit patterns.
pub const EIM_BOUNDARY_KEYS: [i64; 9] = [
    4618441417868443648,
    4621819117588971520,
    4625196817309499392,
    4626885667169763328,
    4629137466983448576,
    4631530004285489152,
    4634626229029306368,
    4636737291354636288,
    4641240890982006784,
];

/// The tier of an effective inference memory: the number of boundaries it reaches.
/// A reading below 6 GB is T0, one of 200 GB or more is T9; gaps fall into the lower
/// tier. NaN reaches no `<` test and lands in T9.
pub open spec fn eim_tier(eim: Gauge) -> u8 {
    match eim.key {
        None => 9,
        Some(k) => if k < 4618441417868443648 {
            0
        } else if k < 4621819117588971520 {
            1
        } else if k < 4625196817309499392 {
            2
        } else if k < 4626885667169763328 {
            3
        } else if k < 4629137466983448576 {
            4
        } else if k < 4631530004285489152 {
            5
        } else if k < 4634626229029306368 {
            6
        } else if k < 4636737291354636288 {
            7
        } else if k < 4641240890982006784 {
            8
        } else {
            9
        },
    }
}

/// Maps effective inference memory (GB) to a hardware tier T0–T9.
pub fn map_eim_to_tier(eim_gb: &Gauge) -> (tier: u8)
    ensures
        tier == eim_tier(*eim_gb),
        tier <= MAX_TIER,
{
    let k = match eim_gb.key {
        None => return 9,
        Some(k) => k,
    };
    let mut tier: u8 = 0;
    while tier < 9 && k >= EIM_BOUNDARY_KEYS[tier as usize]
        invariant
            tier <= 9,
            forall|j: int| 0 <= j < tier ==> k >= EIM_BOUNDARY_KEYS@[j],
        decreases 9 - tier,
    {
        tier = tier + 1;
    }
    tier
}

/// More memory never means a lower tier, and every tier is one of T0–T9.
pub proof fn law_tier_monotone(a: Gauge, b: Gauge)
    requires
        a.key is Some,
        b.key is Some,
        a.key->0 <= b.key->0,
    ensures
        eim_tier(a) <= eim_tier(b),
        eim_tier(b) <= MAX_TIER,
{
}

/// The tier table, entry by entry: each tier's model, quantization and download size (in
/// tenths of a gigabyte). Tiers 5 and 8 repeat the model of the tier below at the higher
/// `Q6_K` quantization; tiers above 9 share tier 9's entry.
pub proof fn law_tier_table(t: u8)
    ensures
        t == 0 ==> tier_row(t).0 == "Qwen3 4B"@ && tier_row(t).1 == "Q4_K_M"@ && tier_row(t).3 == 25,
        t == 1 ==> tier_row(t).0 == "Qwen3.5 9B"@ && tier_row(t).1 == "Q4_K_M"@ && tier_row(t).3 == 54,
        t == 2 ==> tier_row(t).0 == "gpt-oss 20B"@ && tier_row(t).1 == "MXFP4"@ && tier_row(t).3 == 110,
        t == 3 ==> tier_row(t).0 == "Qwen3.6-27B"@ && tier_row(t).1 == "Q4_K_M"@ && tier_row(t).3 == 162,
        t == 4 ==> tier_row(t).0 == "Qwen3.6-35B-A3B"@ && tier_row(t).1 == "Q4_K_M"@ && tier_row(t).3 == 210,
        t == 5 ==> tier_row(t).0 == "Qwen3.6-35B-A3B"@ && tier_row(t).1 == "Q6_K"@ && tier_row(t).3 == 280,
        t == 6 ==> tier_row(t).0 == "Nemotron 3 Super"@ && tier_row(t).1 == "Q4_K_M"@ && tier_row(t).3 == 470,
        t == 7 ==> tier_row(t).0 == "Qwen3.5-122B-A10B"@ && tier_row(t).1 == "Q4_K_M"@ && tier_row(t).3 == 730,
        t == 8 ==> tier_row(t).0 == "Qwen3.5-122B-A10B"@ && tier_row(t).1 == "Q6_K"@ && tier_row(t).3 == 970,
        t >= 9 ==> tier_row(t).0 == "Qwen3.5-397B-A17B"@ && tier_row(t).1 == "Q4_K_M"@ && tier_row(t).3 == 2380,
{
}

/// Bigger machines get bigger models: the download size strictly grows from each tier
/// to the next, up to the top tier.
pub proof fn law_tier_sizes_grow(t: u8)
    requires
        t < MAX_TIER,
    ensures
        tier_row(t).3 < tier_row((t + 1) as u8).3,
{
}

/// The tier boundaries, in gigabytes of effective memory: a reading exactly at a
/// boundary (6, 10, 16, 22, 30, 45, 70, 100, 200 GB, by their `f64` keys) is in the
/// tier above it, and the key just below a boundary is in the tier under it; NaN is T9.
pub proof fn law_tier_boundaries()
    ensures
        eim_tier(Gauge { key: Some(4618441417868443648) }) == 1,
        eim_tier(Gauge { key: Some(4618441417868443647) }) == 0,
        eim_tier(Gauge { key: Some(4621819117588971520) }) == 2,
        eim_tier(Gauge { key: Some(4621819117588971519) }) == 1,
        eim_tier(Gauge { key: Some(4625196817309499392) }) == 3,
        eim_tier(Gauge { key: Some(4625196817309499391) }) == 2,
        eim_tier(Gauge { key: Some(4626885667169763328) }) == 4,
        eim_tier(Gauge { key: Some(4626885667169763327) }) == 3,
        eim_tier(Gauge { key: Some(4629137466983448576) }) == 5,
        eim_tier(Gauge { key: Some(4629137466983448575) }) == 4,
        eim_tier(Gauge { key: Some(4631530004285489152) }) == 6,
        eim_tier(Gauge { key: Some(4631530004285489151) }) == 5,
        eim_tier(Gauge { key: Some(4634626229029306368) }) == 7,
        eim_tier(Gauge { key: Some(4634626229029306367) }) == 6,
        eim_tier(Gauge { key: Some(4636737291354636288) }) == 8,
        eim_tier(Gauge { key: Some(4636737291354636287) }) == 7,
        eim_tier(Gauge { key: Some(4641240890982006784) }) == 9,
        eim_tier(Gauge { key: Some(4641240890982006783) }) == 8,
        eim_tier(Gauge { key: None }) == 9,
{
}

/// A mount point of the system volume: `/`, `C:\\` or `C:/`.
pub open spec fn is_system_mount(m: Seq<char>) -> bool {
    m == "/"@ || m == "C:\\"@ || m == "C:/"@
}

/// The disk whose free space is reported, by index among the disks' mount points: the
/// first with a system mount point, else the first disk, else none.
pub fn report_disk(mounts: &Vec<String>) -> (r: Option<usize>)
    ensures
        match r {
            Some(i) => i < mounts.len() && ((is_system_mount(mounts@[i as int]@) && forall|j: int|
                0 <= j < i ==> !is_system_mount(#[trigger] mounts@[j]@)) || (i == 0 && forall|j: int|
                0 <= j < mounts.len() ==> !is_system_mount(#[trigger] mounts@[j]@))),
            None => mounts.len() == 0,
        },
{
    proof {
        reveal_strlit("/");
        reveal_strlit("C:\\");
        reveal_strlit("C:/");
    }
    let mut i: usize = 0;
    while i < mounts.len()
        invariant
            0 <= i <= mounts.len(),
            forall|j: int| 0 <= j < i ==> !is_system_mount(#[trigger] mounts@[j]@),
        decreases mounts.len() - i,
    {
        let m = mounts[i].as_str();
        if str_equals(m, "/") || str_equals(m, "C:\\") || str_equals(m, "C:/") {
            return Some(i);
        }
        i = i + 1;
    }
    if mounts.len() > 0 {
        Some(0)
    } else {
        None
    }
}

/// The operating system's label: its name (`Unknown` when not known), then its version
/// after a space, when there is a non-empty one.
pub open spec fn os_label_spec(name: Option<Seq<char>>, version: Option<Seq<char>>) -> Seq<char> {
    let n = match name {
        Some(n) => n,
        None => "Unknown"@,
    };
    match version {
        Some(v) if v.len() > 0 => n + " "@ + v,
        _ => n,
    }
}

/// The label of the operating system from its name and version.
pub fn os_label(name: Option<String>, version: Option<String>) -> (r: String)
    ensures
        r@ == os_label_spec(
            match name {
                Some(n) => Some(n@),
                None => None,
            },
            match version {
                Some(v) => Some(v@),
                None => None,
            },
        ),
{
    let mut r = match name {
        Some(n) => n,
        None => String::from_str("Unknown"),
    };
    if let Some(v) = version {
        if v.as_str().unicode_len() > 0 {
            push_str(&mut r, " ");
            push_str(&mut r, v.as_str());
        }
    }
    r
}

/// Apple Silicon, from the lowercased CPU brand, OS label and architecture: the brand
/// names an `apple m` chip, or the system is macOS on an ARM architecture.
pub open spec fn apple_silicon_lowered_spec(cpu: Seq<char>, os: Seq<char>, arch: Seq<char>) -> bool {
    contains_seq(cpu, "apple m"@) || (contains_seq(os, "macos"@) && contains_seq(arch, "arm"@))
}

/// Apple Silicon, each test ignoring case.
pub open spec fn apple_silicon_spec(cpu_model: Seq<char>, os: Seq<char>, arch: Seq<char>) -> bool {
    apple_silicon_lowered_spec(lowercase(cpu_model), lowercase(os), lowercase(arch))
}

/// Whether the machine is Apple Silicon, from the lowercased CPU brand, OS label and
/// architecture.
pub fn apple_silicon_lowered(cpu: &str, os: &str, arch: &str) -> (b: bool)
    ensures
        b == apple_silicon_lowered_spec(cpu@, os@, arch@),
{
    str_contains(cpu, "apple m") || (str_contains(os, "macos") && str_contains(arch, "arm"))
}

/// Whether the machine is Apple Silicon, from its CPU brand, OS label and architecture.
pub fn is_apple_silicon(cpu_model: &str, os: &str, arch: &str) -> (b: bool)
    ensures
        b == apple_silicon_spec(cpu_model@, os@, arch@),
{
    let cpu = to_lowercase(cpu_model);
    let o = to_lowercase(os);
    let a = to_lowercase(arch);
    apple_silicon_lowered(cpu.as_str(), o.as_str(), a.as_str())
}

/// The order key of `16.0f64`: from this much effective memory on, long contexts are
/// worth a note.
pub const LARGE_CONTEXT_EIM_KEY: i64 = 4625196817309499392;

/// The notes of a recommendation: the low-disk warning when there is one, the two
/// Apple Silicon notes, then the KV-cache note from 16 GB of effective memory on.
pub open spec fn advice_notes_spec(low_disk: Option<Seq<char>>, apple_silicon: bool, eim: Gauge) -> Seq<Seq<char>> {
    (match low_disk {
        Some(n) => seq![n],
        None => seq![],
    }) + (if apple_silicon {
        seq![
            "Apple Silicon: GPU draws from unified RAM. EIM = ~75% of total RAM by default."@,
            "Raise GPU cap: sudo sysctl iogpu.wired_limit_mb=<MB>"@,
        ]
    } else {
        seq![]
    }) + (if eim.key is Some && eim.key->0 >= LARGE_CONTEXT_EIM_KEY {
        seq!["At 256K context, budget 20–40 GB extra for KV cache."@]
    } else {
        seq![]
    })
}

/// The notes that accompany the recommendations.
pub fn advice_notes(low_disk: Option<String>, apple_silicon: bool, eim: &Gauge) -> (r: Vec<String>)
    ensures
        crate::sse::strings_view(r@) == advice_notes_spec(
            match low_disk {
                Some(n) => Some(n@),
                None => None,
            },
            apple_silicon,
            *eim,
        ),
{
    let mut notes: Vec<String> = Vec::new();
    if let Some(n) = low_disk {
        notes.push(n);
    }
    if apple_silicon {
        notes.push(String::from_str("Apple Silicon: GPU draws from unified RAM. EIM = ~75% of total RAM by default."));
        notes.push(String::from_str("Raise GPU cap: sudo sysctl iogpu.wired_limit_mb=<MB>"));
    }
    let large = match eim.key {
        Some(k) => k >= LARGE_CONTEXT_EIM_KEY,
        None => false,
    };
    if large {
        notes.push(String::from_str("At 256K context, budget 20–40 GB extra for KV cache."));
    }
    assert(crate::sse::strings_view(notes@) =~= advice_notes_spec(
        match low_disk {
            Some(n) => Some(n@),
            None => None,
        },
        apple_silicon,
        *eim,
    ));
    notes
}

/// The tiers of the three recommendations: COMFORTABLE (one below, not under 0),
/// BALANCED (the tier itself), STRETCH (one above, not over 9).
pub open spec fn recommendation_tiers_spec(tier: u8) -> (u8, u8, u8) {
    (
        if tier > 0 { (tier - 1) as u8 } else { 0 },
        tier,
        if tier + 1 < MAX_TIER { (tier + 1) as u8 } else { MAX_TIER },
    )
}

/// The tiers whose models are recommended for a machine of tier `tier`.
pub fn recommendation_tiers(tier: u8) -> (r: (u8, u8, u8))
    requires
        tier < 255,
    ensures
        r == recommendation_tiers_spec(tier),
{
    let stretch = if tier + 1 < MAX_TIER { tier + 1 } else { MAX_TIER };
    (tier.saturating_sub(1), tier, stretch)
}

/// The three recommendations, for any tier of the table, are tiers of the table and
/// come in order: comfortable, balanced, stretch.
pub proof fn law_recommendations_ordered(tier: u8)
    requires
        tier <= MAX_TIER,
    ensures
        recommendation_tiers_spec(tier).0 <= recommendation_tiers_spec(tier).1,
        recommendation_tiers_spec(tier).1 <= recommendation_tiers_spec(tier).2,
        recommendation_tiers_spec(tier).2 <= MAX_TIER,
        tier < MAX_TIER ==> recommendation_tiers_spec(tier).2 == tier + 1,
        tier > 0 ==> recommendation_tiers_spec(tier).0 == tier - 1,
{
}

} // verus!
