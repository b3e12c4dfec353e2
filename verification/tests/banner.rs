use sysbanner::art::art_rows;
use sysbanner::compose::banner_lines;
use sysbanner::compose::compose_lines;
use sysbanner::config::Config;
use sysbanner::facts::first_brand;
use sysbanner::facts::gather_facts;
use sysbanner::facts::gpu_label;
use sysbanner::facts::or_unknown;
use sysbanner::facts::Facts;
use sysbanner::modules::Module;
use sysbanner::modules::TitleOpts;
use sysbanner::text::visible_width;

fn fake_facts() -> Facts {
    Facts {
        os: String::from("TestOS"),
        kernel: String::from("TestKernel"),
        uptime_seconds: 3661,
        shell: String::from("zsh"),
        used_memory: 4_294_967_296,  // 4096 MiB: half of the total
        total_memory: 8_589_934_592, // 8192 MiB
        cpu: String::from("TestCPU"),
        gpu: String::from("TestGPU"),
    }
}

fn labeled(label: &str, value: &str) -> String {
    format!("\u{1b}[91m{}\u{1b}[0m: \u{1b}[95m{}\u{1b}[0m", label, value)
}

fn expected_art() -> Vec<String> {
    let row = |plain: &str, lc: u32, l: &str, rc: u32, r: &str| {
        format!(
            "{}\u{1b}[{}m{}\u{1b}[0m\u{1b}[{}m{}\u{1b}[0m",
            plain, lc, l, rc, r
        )
    };
    vec![
        " ".repeat(16),
        row("      ", 31, " _.-;", 32, ";-._ "),
        row("'-..-'", 31, "|   |", 32, "|   |"),
        row("'-..-'", 31, "|_.-;", 32, ";-._|"),
        row("'-..-'", 34, "|   |", 33, "|   |"),
        row("'-..-'", 34, "|_.-'", 33, "'-._|"),
    ]
}

#[test]
fn art_has_five_rows_of_equal_visible_width() {
    let rows = art_rows();
    assert_eq!(rows.len(), 5);
    for row in &rows {
        assert_eq!(visible_width(row), 16);
    }
    assert_eq!(rows, &expected_art()[1..]);
}

#[test]
fn default_layout_order() {
    let c = Config::new(String::from("alice"), String::from("host"));
    assert_eq!(c.modules.len(), 9);
    assert!(matches!(&c.modules[0], Module::Title { opts } if opts.user == "alice"));
    assert!(matches!(c.modules[1], Module::Line { len: 10 }));
    assert!(matches!(c.modules[2], Module::OS));
    assert!(matches!(c.modules[3], Module::Kernel));
    assert!(matches!(c.modules[4], Module::Uptime { short: false }));
    assert!(matches!(c.modules[5], Module::Shell));
    assert!(matches!(c.modules[6], Module::Memory));
    assert!(matches!(c.modules[7], Module::CPU));
    assert!(matches!(c.modules[8], Module::GPU));
}

#[test]
fn title_line_concatenates_user_at_host() {
    let m = Module::Title {
        opts: TitleOpts {
            user: String::from("alice"),
            hostname: String::from("host"),
        },
    };
    assert_eq!(
        m.display(&fake_facts()),
        "\u{1b}[94malice\u{1b}[0m\u{1b}[33m@\u{1b}[0m\u{1b}[92mhost\u{1b}[0m"
    );
}

#[test]
fn separator_is_uncolored_dashes() {
    let m = Module::Line { len: 10 };
    assert_eq!(m.display(&fake_facts()), "----------");
}

#[test]
fn reserved_modules_render_placeholder() {
    let facts = fake_facts();
    assert_eq!(Module::Disk.display(&facts), "Not implemented");
    assert_eq!(Module::Battery.display(&facts), "Not implemented");
    assert_eq!(Module::Public_IP.display(&facts), "Not implemented");
}

#[test]
fn end_to_end_default_configuration() {
    let config = Config::new(String::from("alice"), String::from("host"));
    let facts = fake_facts();
    let lines = compose_lines(&config, &facts);
    assert_eq!(lines.len(), config.modules.len());

    let art = expected_art();
    let displays = vec![
        String::from("\u{1b}[94malice\u{1b}[0m\u{1b}[33m@\u{1b}[0m\u{1b}[92mhost\u{1b}[0m"),
        "-".repeat(10),
        labeled("OS", "TestOS"),
        labeled("Kernel", "TestKernel"),
        labeled("Uptime", "1 hours, 1 minutes, 1 seconds"),
        labeled("Shell", "zsh"),
        labeled("Memory", "4096.00 MiB / 8192.00 MiB"),
        labeled("CPU", "TestCPU"),
        labeled("GPU", "TestGPU"),
    ];
    for (i, line) in lines.iter().enumerate() {
        let left = if i < art.len() {
            art[i].clone()
        } else {
            " ".repeat(16)
        };
        assert_eq!(line, &format!("  {}  {}", left, displays[i]));
    }
}

#[test]
fn excess_modules_pair_with_blank_padding() {
    // Nine modules, six art queue rows: the last three lines carry a
    // blank pad of the art's visible width, and the module text whole.
    let config = Config::new(String::from("alice"), String::from("host"));
    let facts = fake_facts();
    let lines = compose_lines(&config, &facts);
    for i in 6..9 {
        let expected_prefix = format!("  {}  ", " ".repeat(16));
        assert!(lines[i].starts_with(&expected_prefix));
        let rest = &lines[i][expected_prefix.len()..];
        assert_eq!(rest, config.modules[i].display(&facts).as_str());
        assert_eq!(visible_width(&" ".repeat(16)), 16);
    }
}

#[test]
fn banner_wraps_modules_in_blank_and_swatch_lines() {
    let config = Config::new(String::from("alice"), String::from("host"));
    let facts = fake_facts();
    let all = banner_lines(&config, &facts);
    assert_eq!(all.len(), 9 + 5);
    assert_eq!(all[0], "");
    assert_eq!(all[10], "");
    assert_eq!(all[13], "");
    let body = compose_lines(&config, &facts);
    assert_eq!(&all[1..10], &body[..]);
    // Each swatch row: twenty leading blanks, then eight colour blocks.
    for (idx, base) in [(11usize, 30u32), (12, 90)] {
        let mut expected = " ".repeat(20);
        for code in base..base + 8 {
            expected.push_str(&format!("\u{1b}[{}m████\u{1b}[0m", code));
        }
        assert_eq!(all[idx], expected);
        assert_eq!(visible_width(&all[idx]), 20 + 8 * 4);
    }
}

#[test]
fn fallbacks_for_failed_lookups() {
    assert_eq!(or_unknown(None), "unknown");
    assert_eq!(or_unknown(Some(String::from("fish"))), "fish");
    assert_eq!(gpu_label(None), "Unknown");
    assert_eq!(gpu_label(Some(String::from("TestAdapter"))), "TestAdapter");
}

#[test]
fn first_brand_picks_first_or_unknown() {
    assert_eq!(first_brand(&vec![]), "unknown");
    assert_eq!(
        first_brand(&vec![String::from("TestCPU"), String::from("Other")]),
        "TestCPU"
    );
}

#[test]
fn gathered_facts_respect_the_contracts() {
    let facts = gather_facts(None);
    assert_eq!(facts.gpu, "Unknown");
    // The shell name is either the fallback or a name cut before its
    // first dot, so it never contains one.
    assert!(!facts.shell.contains('.'));
}

#[test]
fn default_config_has_nine_modules() {
    let c = Config::default();
    assert_eq!(c.modules.len(), 9);
    assert!(matches!(&c.modules[0], Module::Title { .. }));
    assert!(matches!(&c.modules[8], Module::GPU));
}
