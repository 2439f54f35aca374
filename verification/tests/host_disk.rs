use heim::disk::macos::{DriveSample, IoCounters};
use heim::net::{nic, Nic};
use heim::disk::partitions::{partitions_physical, FileSystem, Partition};
use heim::disk::windows::{VolumePerf, VolumeSample};
use heim::error::Error;
use heim::host::{boot_time, parse_seconds, uptime};
use heim::sensors::temperatures;
use heim::units::Time;

#[test]
fn uptime_reads_decimal_seconds() {
    let t = uptime(b"12345.67 40000.00\n").unwrap();
    assert_eq!(t.ns, 12_345_670_000_000);

    let whole = parse_seconds(b"7").unwrap();
    assert_eq!(whole.ns, 7_000_000_000);

    assert_eq!(parse_seconds(b"1.2.3"), Err(Error::InvalidData));
    assert_eq!(parse_seconds(b"x.2"), Err(Error::InvalidData));
    assert_eq!(parse_seconds(b""), Err(Error::InvalidData));
}

#[test]
fn boot_time_reads_the_btime_line() {
    let t = boot_time(b"cpu  1 2 3\nbtime 1611230000\nprocesses 9\n").unwrap();
    assert_eq!(t.ns, 1_611_230_000_000_000_000);

    assert_eq!(boot_time(b"cpu 1 2 3\n"), Err(Error::MissingKey));
    assert_eq!(boot_time(b"btime x\n"), Err(Error::InvalidData));
}

#[test]
fn filesystems_parse_and_classify() {
    assert_eq!(FileSystem::from_str("ext4"), FileSystem::Ext4);
    assert_eq!(FileSystem::from_str("xfs"), FileSystem::Xfs);
    assert_eq!(
        FileSystem::from_str("squashfs"),
        FileSystem::Other("squashfs".to_string())
    );

    assert!(FileSystem::Ext4.is_physical());
    assert!(!FileSystem::Other("tmpfs".to_string()).is_physical());
}

#[test]
fn partition_records_keep_their_parts() {
    let p = Partition::from_parts(
        Some("/dev/sda1".to_string()),
        "ext4",
        "/".to_string(),
        4096,
    );

    assert_eq!(p.device().unwrap(), "/dev/sda1");
    assert_eq!(p.mount_point(), "/");
    assert_eq!(*p.file_system(), FileSystem::Ext4);
    assert_eq!(p.raw_flags(), 4096);
}

#[test]
fn physical_partitions_drop_the_unrecognised() {
    let parts = vec![
        Partition::from_parts(Some("/dev/sda1".to_string()), "ext4", "/".to_string(), 0),
        Partition::from_parts(None, "tmpfs", "/tmp".to_string(), 0),
        Partition::from_parts(Some("/dev/sdb1".to_string()), "xfs", "/data".to_string(), 0),
    ];
    let phys = partitions_physical(parts);

    assert_eq!(phys.len(), 2);
    assert_eq!(phys[0].mount_point(), "/");
    assert_eq!(phys[1].mount_point(), "/data");
}

fn drive(device: &str, removable: bool) -> DriveSample {
    DriveSample {
        device: device.to_string(),
        removable,
        reads: 100,
        writes: 50,
        read_bytes: 4096,
        write_bytes: 2048,
        read_time_ns: 7_000,
        write_time_ns: 3_000,
    }
}

#[test]
fn drive_counters_map_the_registry_record() {
    let c = IoCounters::from_sample(drive("disk0", false));

    assert_eq!(c.device_name(), "disk0");
    assert_eq!(c.read_count(), 100);
    assert_eq!(c.write_count(), 50);
    assert_eq!(c.read_bytes().bytes, 4096);
    assert_eq!(c.write_bytes().bytes, 2048);
    assert_eq!(c.read_time(), Time { ns: 7_000 });
    assert_eq!(c.write_time(), Time { ns: 3_000 });
}

#[test]
fn drive_counters_physical_drop_removable() {
    let counters = heim::disk::macos::io_counters(vec![drive("disk0", false), drive("disk1", true)]);
    assert_eq!(counters.len(), 2);

    let fixed = heim::disk::macos::io_counters_physical(counters);
    assert_eq!(fixed.len(), 1);
    assert_eq!(fixed[0].device_name(), "disk0");
}

fn volume(path: &str, fixed: bool, with_perf: bool) -> VolumeSample {
    VolumeSample {
        path: path.to_string(),
        fixed,
        perf: if with_perf {
            Some(VolumePerf {
                read_count: 10,
                write_count: 20,
                bytes_read: 512,
                bytes_written: 1024,
                read_time_raw: 5,
                write_time_raw: 9,
            })
        } else {
            None
        },
    }
}

#[test]
fn volume_counters_scale_driver_times() {
    let c = heim::disk::windows::io_counters(vec![volume("C:\\", true, true)]);

    assert_eq!(c.len(), 1);
    assert_eq!(c[0].device_name(), "C:\\");
    assert_eq!(c[0].read_count(), 10);
    assert_eq!(c[0].write_count(), 20);
    assert_eq!(c[0].read_bytes().bytes, 512);
    assert_eq!(c[0].write_bytes().bytes, 1024);
    // Five raw driver units are fifty microseconds.
    assert_eq!(c[0].read_time(), Time { ns: 50_000 });
    assert_eq!(c[0].write_time(), Time { ns: 90_000 });
}

#[test]
fn volume_counters_physical_keep_fixed_drives_only() {
    let samples = vec![
        volume("C:\\", true, true),
        volume("D:\\", false, true),
        volume("E:\\", true, false),
    ];
    let all = heim::disk::windows::io_counters(samples.clone());
    assert_eq!(all.len(), 2);

    let fixed = heim::disk::windows::io_counters_physical(samples);
    assert_eq!(fixed.len(), 1);
    assert_eq!(fixed[0].device_name(), "C:\\");
}

#[test]
fn no_temperature_sensors_are_reported() {
    assert_eq!(temperatures().len(), 0);
}

#[test]
fn time_units_convert_exactly() {
    assert_eq!(Time::from_secs(2), Time { ns: 2_000_000_000 });
    assert_eq!(Time::from_millis(5), Time { ns: 5_000_000 });
    assert_eq!(Time::from_nanos(7), Time { ns: 7 });
    assert_eq!(Time::from_ticks(150, 100), Time { ns: 1_500_000_000 });
    assert_eq!(
        Time::from_secs(1).add(Time::from_millis(500)),
        Time { ns: 1_500_000_000 }
    );
}

#[test]
fn interface_flags_decode_their_bits() {
    let up_loopback = Nic {
        name: "lo".to_string(),
        address: Some(vec![127, 0, 0, 1]),
        netmask: Some(vec![255, 0, 0, 0]),
        broadcast: None,
        destination: None,
        flags: 0x9,
    };
    assert!(up_loopback.is_up());
    assert!(up_loopback.is_loopback());
    assert!(!up_loopback.is_broadcast());
    assert!(!up_loopback.is_point_to_point());
    assert!(!up_loopback.is_multicast());

    let bare = Nic {
        name: "dummy0".to_string(),
        address: None,
        netmask: None,
        broadcast: None,
        destination: None,
        flags: 0,
    };
    let kept = nic(vec![up_loopback.clone(), bare]);
    assert_eq!(kept.len(), 1);
    assert_eq!(kept[0].name(), "lo");
}
