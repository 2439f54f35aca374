use heim::cpu::count::{logical_count_from_cpuinfo, logical_count_from_stat};
use heim::cpu::freq::{average, frequencies, frequency, read_freq, CpuFrequency};
use heim::cpu::physical::{cpu_info, cpu_match, parse_line, physical_count, topology};
use heim::cpu::stats::CpuStats;
use heim::cpu::times::{time, times, CpuTime};
use heim::error::Error;
use heim::units::{Frequency, Time};

const CPUINFO: &[u8] = b"processor\t: 0\nvendor_id\t: x\nphysical id\t: 0 : 0\ncore id\t\t: 0 : 0\nprocessor\t: 1\nphysical id\t: 0 : 0\ncore id\t\t: 0 : 1\n";

const STAT: &[u8] = b"cpu  317865 456 71065 3101075 8645 14938 10567 0 0 0\ncpu0 158932 228 35532 1550537 4322 7469 5283 0 0 0\ncpu1 158933 228 35533 1550538 4323 7469 5284 0 0 0\nintr 120\nctxt 5721967\nbtime 1611230000\nsoftirq 2672986\n";

#[test]
fn logical_count_prefers_the_kernel_report() {
    assert_eq!(heim::cpu::count::logical_count(Some(8), Some(CPUINFO), Some(STAT)).unwrap(), 8);
}

#[test]
fn logical_count() {
    // Two "processor" lines in the inventory above.
    assert_eq!(logical_count_from_cpuinfo(CPUINFO), 2);
    // Two per-CPU lines after the aggregate line.
    assert_eq!(logical_count_from_stat(STAT), 2);
    assert_eq!(
        heim::cpu::count::logical_count(None, Some(CPUINFO), None).unwrap(),
        2
    );
    assert_eq!(heim::cpu::count::logical_count(None, None, Some(STAT)).unwrap(), 2);
    assert_eq!(
        heim::cpu::count::logical_count(None, None, None),
        Err(Error::MissingKey)
    );
}

#[test]
fn parse_line_reads_the_third_piece() {
    assert_eq!(parse_line(b"physical id\t: 0 : 7").unwrap(), 7);
    assert!(parse_line(b"physical id\t: 0").is_err());
    assert!(parse_line(b"core id : a : b").is_err());
}

#[test]
fn cpu_match_wants_cpu_and_digits() {
    assert!(cpu_match(b"cpu0"));
    assert!(cpu_match(b"cpu12"));
    assert!(cpu_match(b"cpu"));
    assert!(!cpu_match(b"cpufreq"));
    assert!(!cpu_match(b"node0"));
}

#[test]
fn topology_counts_distinct_cores() {
    let readings = vec![b"0\n".to_vec(), b"1\n".to_vec(), b"0\n".to_vec()];
    assert_eq!(topology(&readings).unwrap(), 2);

    let none: Vec<Vec<u8>> = Vec::new();
    assert_eq!(topology(&none), Err(Error::InvalidData));

    let bad = vec![b"x\n".to_vec()];
    assert_eq!(topology(&bad), Err(Error::InvalidData));
}

#[test]
fn inventory_counts_distinct_pairs() {
    assert_eq!(cpu_info(CPUINFO).unwrap(), Some(2));
    assert_eq!(cpu_info(b"model name : x\n").unwrap(), None);
    assert!(cpu_info(b"physical id : 0 : z\n").is_err());
}

#[test]
fn physical_count_prefers_topology() {
    let readings = vec![b"0\n".to_vec(), b"1\n".to_vec(), b"2\n".to_vec()];
    assert_eq!(physical_count(Some(&readings), Some(CPUINFO)).unwrap(), Some(3));
    assert_eq!(physical_count(None, Some(CPUINFO)).unwrap(), Some(2));
    assert_eq!(physical_count(None, None), Err(Error::MissingKey));
}

#[test]
fn stats_reads_the_three_counters() {
    let stats = CpuStats::from_str(STAT).unwrap();

    assert_eq!(stats.ctx_switches(), 5721967);
    assert_eq!(stats.interrupts(), 120);
    assert_eq!(stats.soft_interrupts(), 2672986);
}

#[test]
fn stats_leaves_absent_counters_zero() {
    let stats = CpuStats::from_str(b"ctxt 5\n").unwrap();

    assert_eq!(stats.ctx_switches(), 5);
    assert_eq!(stats.interrupts(), 0);
    assert_eq!(stats.soft_interrupts(), 0);

    assert_eq!(CpuStats::from_str(b"ctxt\n"), Err(Error::MissingKey));
    assert_eq!(CpuStats::from_str(b"ctxt x\n"), Err(Error::InvalidData));
}

#[test]
fn cpu_time_reads_one_line() {
    // One hundred ticks per second: each tick is ten milliseconds.
    let t = CpuTime::from_str(b"cpu1 317865 456 71065 3101075 8645 14938 10567 0 0 0", 100)
        .unwrap();

    assert_eq!(t.user(), Time { ns: 3_178_650_000_000 });
    assert_eq!(t.nice(), Time { ns: 4_560_000_000 });
    assert_eq!(t.system(), Time { ns: 710_650_000_000 });
    assert_eq!(t.idle(), Time { ns: 31_010_750_000_000 });
    assert_eq!(t.io_wait(), Time { ns: 86_450_000_000 });
    assert_eq!(t.irq(), Time { ns: 149_380_000_000 });
    assert_eq!(t.soft_irq(), Time { ns: 105_670_000_000 });
    assert_eq!(t.steal(), Time { ns: 0 });
    assert_eq!(t.guest(), Some(Time { ns: 0 }));
    assert_eq!(t.guest_nice(), Some(Time { ns: 0 }));
}

#[test]
fn cpu_time_leaves_missing_columns_absent() {
    let t = CpuTime::from_str(b"cpu0 100 200 300 400", 100).unwrap();

    assert_eq!(t.user(), Time { ns: 1_000_000_000 });
    assert_eq!(t.idle(), Time { ns: 4_000_000_000 });
    assert_eq!(t.io_wait(), Time { ns: 0 });
    assert_eq!(t.guest(), None);
    assert_eq!(t.guest_nice(), None);

    assert!(CpuTime::from_str(b"cpu0 1x0", 100).is_err());
}

#[test]
fn machine_time_is_the_first_line() {
    let t = time(STAT, 100).unwrap();

    assert_eq!(t.user(), Time { ns: 3_178_650_000_000 });
    assert_eq!(time(b"", 100), Err(Error::MissingKey));
}

#[test]
fn per_cpu_times_skip_the_aggregate() {
    let ts = times(STAT, 100);

    assert_eq!(ts.len(), 2);
    let t0 = ts[0].as_ref().unwrap();
    let t1 = ts[1].as_ref().unwrap();
    assert_eq!(t0.user(), Time { ns: 1_589_320_000_000 });
    assert_eq!(t1.user(), Time { ns: 1_589_330_000_000 });
}

#[test]
fn frequency_files_parse_in_kilohertz() {
    assert_eq!(read_freq(b"1200000\n").unwrap(), Frequency { khz: 1200000 });
    assert!(read_freq(b"fast\n").is_err());

    assert_eq!(
        heim::cpu::freq::current_freq(Some(b"800000\n")).unwrap(),
        Frequency { khz: 800000 }
    );
    assert_eq!(heim::cpu::freq::current_freq(None), Err(Error::MissingKey));
    assert_eq!(heim::cpu::freq::max_freq(Some(b"oops")).unwrap(), None);
    assert_eq!(
        heim::cpu::freq::min_freq(Some(b"400000\n")).unwrap(),
        Some(Frequency { khz: 400000 })
    );
    assert_eq!(heim::cpu::freq::max_freq(None).unwrap(), None);
}

#[test]
fn frequency_report_averages_cores() {
    let freqs = vec![
        CpuFrequency {
            current: Frequency { khz: 1000 },
            min: Some(Frequency { khz: 400 }),
            max: None,
        },
        CpuFrequency {
            current: Frequency { khz: 3000 },
            min: None,
            max: Some(Frequency { khz: 5000 }),
        },
    ];
    let avg = average(&freqs).unwrap();

    assert_eq!(avg.current(), Frequency { khz: 2000 });
    assert_eq!(avg.min(), Some(Frequency { khz: 200 }));
    assert_eq!(avg.max(), Some(Frequency { khz: 2500 }));
}

#[test]
fn frequency_accumulation_keeps_single_bounds() {
    let a = CpuFrequency {
        current: Frequency { khz: 100 },
        min: Some(Frequency { khz: 50 }),
        max: None,
    };
    let b = CpuFrequency {
        current: Frequency { khz: 200 },
        min: None,
        max: Some(Frequency { khz: 400 }),
    };
    let sum = a.add(b);

    assert_eq!(sum.current(), Frequency { khz: 300 });
    assert_eq!(sum.min(), Some(Frequency { khz: 50 }));
    assert_eq!(sum.max(), Some(Frequency { khz: 400 }));
}

#[test]
fn frequency_fails_without_any_report() {
    assert_eq!(frequencies().len(), 0);
    assert_eq!(frequency(), Err(Error::InvalidData));
}
