use internalvoice::advisor::{
    advice_notes, apple_silicon_lowered, is_apple_silicon, map_eim_to_tier, os_label, report_disk, MAX_TIER,
};
use internalvoice::model::Gauge;
use internalvoice::probe::{
    display_line, nvidia_fields, profiler_chip, rocm_line_figure, rocm_vram_figures, split_lines, sysctl_chip,
    DisplayKind,
};

fn gauge(x: f64) -> Gauge {
    if x.is_nan() {
        return Gauge { key: None };
    }
    let bits = x.to_bits() as i64;
    Gauge { key: Some(if bits < 0 { -(bits & 0x7fff_ffff_ffff_ffff) } else { bits }) }
}

#[test]
fn lines_match_std() {
    for s in ["", "a", "a\n", "a\r\nb", "a\n\nb\n", "\n", "x\r", "one\r\ntwo\r\n", "\r\n\r\n"] {
        let ours = split_lines(s);
        let std: Vec<String> = s.lines().map(|l| l.to_string()).collect();
        assert_eq!(ours, std, "input {:?}", s);
    }
}

#[test]
fn eim_tiers_follow_the_table() {
    let cases = [
        (0.0, 0),
        (5.99, 0),
        (6.0, 1),
        (9.9, 1),
        (10.0, 2),
        (15.0, 2),
        (16.0, 3),
        (21.9, 3),
        (22.0, 4),
        (29.0, 4),
        (30.0, 5),
        (44.0, 5),
        (45.0, 6),
        (69.0, 6),
        (70.0, 7),
        (99.0, 7),
        (100.0, 8),
        (199.0, 8),
        (200.0, 9),
        (4096.0, 9),
        (-1.0, 0),
    ];
    for (eim, tier) in cases {
        assert_eq!(map_eim_to_tier(&gauge(eim)), tier, "eim {}", eim);
    }
    assert_eq!(map_eim_to_tier(&gauge(f64::NAN)), MAX_TIER);
}

#[test]
fn eim_tier_never_drops_as_memory_grows() {
    let mut last = 0;
    let mut x = 0.0f64;
    while x < 300.0 {
        let t = map_eim_to_tier(&gauge(x));
        assert!(t >= last);
        last = t;
        x += 0.5;
    }
}

#[test]
fn system_disk_is_reported() {
    let mounts = |v: &[&str]| v.iter().map(|s| s.to_string()).collect::<Vec<String>>();
    assert_eq!(report_disk(&mounts(&["/boot", "/", "/home"])), Some(1));
    assert_eq!(report_disk(&mounts(&["D:\\", "C:\\"])), Some(1));
    assert_eq!(report_disk(&mounts(&["C:/"])), Some(0));
    assert_eq!(report_disk(&mounts(&["/data", "/mnt"])), Some(0));
    assert_eq!(report_disk(&mounts(&[])), None);
}

#[test]
fn os_labels_and_apple_silicon() {
    assert_eq!(os_label(Some("Ubuntu".into()), Some("24.04".into())), "Ubuntu 24.04");
    assert_eq!(os_label(Some("Ubuntu".into()), Some(String::new())), "Ubuntu");
    assert_eq!(os_label(None, None), "Unknown");
    assert!(is_apple_silicon("Apple M4 Pro", "Darwin 15", "x86_64"));
    assert!(is_apple_silicon("", "macOS 15.1", "ARM64"));
    assert!(!is_apple_silicon("Intel(R) Core(TM) i7", "macOS 14", "x86_64"));
    assert!(!is_apple_silicon("AMD Ryzen", "Linux 6.8", "arm"));
    assert!(apple_silicon_lowered("apple m2", "", ""));
    assert!(!apple_silicon_lowered("Apple M2", "", ""));
    assert!(apple_silicon_lowered("", "macos 14", "arm64"));
}

#[test]
fn advice_notes_in_order() {
    let n = advice_notes(Some("Low disk".into()), true, &gauge(24.0));
    assert_eq!(n.len(), 4);
    assert_eq!(n[0], "Low disk");
    assert_eq!(n[1], "Apple Silicon: GPU draws from unified RAM. EIM = ~75% of total RAM by default.");
    assert_eq!(n[2], "Raise GPU cap: sudo sysctl iogpu.wired_limit_mb=<MB>");
    assert_eq!(n[3], "At 256K context, budget 20–40 GB extra for KV cache.");
    assert!(advice_notes(None, false, &gauge(15.9)).is_empty());
    assert_eq!(advice_notes(None, false, &gauge(16.0)).len(), 1);
    assert!(advice_notes(None, false, &gauge(f64::NAN)).is_empty());
}

#[test]
fn nvidia_report() {
    assert_eq!(
        nvidia_fields("NVIDIA GeForce RTX 4090, 24564 MiB\nsecond, 1 MiB\n"),
        Some(("NVIDIA GeForce RTX 4090".to_string(), "24564".to_string()))
    );
    assert_eq!(nvidia_fields("A100,81920MiB"), Some(("A100".to_string(), "81920".to_string())));
    assert_eq!(nvidia_fields("no comma here"), None);
    assert_eq!(nvidia_fields(""), None);
    assert_eq!(nvidia_fields(" a , b , c "), Some(("a".to_string(), "b , c".to_string())));
}

#[test]
fn rocm_report() {
    let out = "GPU[0] : VRAM Total Memory (B): 17163091968\nGPU[0] : VRAM Total Used Memory (B): 1\nvram total memory (MiB): 16368 MiB\nvram total memory:   \n";
    let figs = rocm_vram_figures(out);
    assert_eq!(figs, vec![Some("17163091968".to_string()), Some("16368".to_string()), None]);
    assert!(rocm_vram_figures("nothing\n").is_empty());
    assert_eq!(rocm_line_figure("a: b:  12 34 "), Some("12".to_string()));
    assert_eq!(rocm_line_figure("no colon here"), Some("no".to_string()));
    assert_eq!(rocm_line_figure("x:"), None);
}

#[test]
fn apple_chip_reports() {
    assert_eq!(sysctl_chip("Apple M4 Pro\n"), Some("Apple M4 Pro".to_string()));
    assert_eq!(sysctl_chip("  \n"), None);
    let hw = "Hardware:\n\n    Hardware Overview:\n\n      Model Name: MacBook Pro\n      Chip: Apple M3 Max\n      Chip: other\n";
    assert_eq!(profiler_chip(hw), Some("Apple M3 Max".to_string()));
    assert_eq!(profiler_chip("Model Name: Mac\n"), None);
}

#[test]
fn display_report_lines() {
    assert_eq!(display_line("      Chipset Model: AMD Radeon Pro 5500M"), (DisplayKind::Chipset, "AMD Radeon Pro 5500M".to_string()));
    assert_eq!(display_line("      VRAM (Total): 8 GB"), (DisplayKind::VramGb, "8".to_string()));
    assert_eq!(display_line("VRAM (Dynamic, Max): 1536 MB"), (DisplayKind::VramMb, "1536".to_string()));
    assert_eq!(display_line("VRAM (Static): 4GB"), (DisplayKind::VramGb, "4".to_string()));
    assert_eq!(display_line("VRAM (Total): unknown"), (DisplayKind::Other, String::new()));
    assert_eq!(display_line("Vendor: AMD"), (DisplayKind::Other, String::new()));
}
