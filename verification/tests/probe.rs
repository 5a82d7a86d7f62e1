use mirror_sync::{
    LogNote, Probe, ProbeAction, ProbeStage, ProbeVerdict, Side, SyncLogLevel, SyncPath,
};

fn source() -> SyncPath {
    SyncPath::new("src".to_string()).child(&"log.txt".to_string())
}

fn answer(action: ProbeAction, src: &[u8], dest: &[u8]) -> Result<Vec<u8>, String> {
    match action {
        ProbeAction::Open(_) | ProbeAction::SeekFromEnd(_, _) | ProbeAction::Finish(_) => {
            Ok(Vec::new())
        }
        ProbeAction::Read(side, size) => {
            let bytes = match side {
                Side::Source => src,
                Side::Dest => dest,
            };
            Ok(bytes[..size as usize].to_vec())
        }
    }
}

/// Runs a probe on two contents held in memory; the tail is read from the
/// place that the probe moved to.
fn run(size: u64, src: &[u8], dest: &[u8]) -> (ProbeVerdict, usize) {
    let mut probe = Probe::start(size);
    let mut src_at = 0;
    let mut dest_at = 0;
    let mut steps = 0;
    loop {
        let action = probe.action();
        let event = match action {
            ProbeAction::Finish(verdict) => return (verdict, steps),
            ProbeAction::SeekFromEnd(Side::Source, back) => {
                src_at = src.len() - back as usize;
                Ok(Vec::new())
            }
            ProbeAction::SeekFromEnd(Side::Dest, back) => {
                dest_at = dest.len() - back as usize;
                Ok(Vec::new())
            }
            other => answer(other, &src[src_at..], &dest[dest_at..]),
        };
        let (next, note) = probe.advance(event, &source());
        assert_eq!(note, None);
        probe = next;
        steps += 1;
    }
}

#[test]
fn probe_walks_its_eight_steps_in_order() {
    let src = source();
    let mut probe = Probe::start(3);
    assert_eq!(probe, Probe { size: 3, stage: ProbeStage::OpenSource });
    let expected = [
        ProbeAction::Open(Side::Source),
        ProbeAction::Open(Side::Dest),
        ProbeAction::Read(Side::Source, 3),
        ProbeAction::Read(Side::Dest, 3),
        ProbeAction::SeekFromEnd(Side::Source, 3),
        ProbeAction::SeekFromEnd(Side::Dest, 3),
        ProbeAction::Read(Side::Source, 3),
        ProbeAction::Read(Side::Dest, 3),
    ];
    for action in expected {
        assert_eq!(probe.action(), action);
        let event = match action {
            ProbeAction::Read(_, _) => Ok(vec![1, 2, 3]),
            _ => Ok(Vec::new()),
        };
        let (next, note) = probe.advance(event, &src);
        assert_eq!(note, None);
        probe = next;
    }
    assert_eq!(probe.action(), ProbeAction::Finish(ProbeVerdict::Equal));
    let (after, note) = probe.advance(Err("late".to_string()), &src);
    assert_eq!(after.action(), ProbeAction::Finish(ProbeVerdict::Equal));
    assert_eq!(note, None);
}

#[test]
fn probe_of_no_bytes_is_equal_at_once() {
    assert_eq!(Probe::start(0).action(), ProbeAction::Finish(ProbeVerdict::Equal));
    assert_eq!(run(0, b"abc", b"xyz"), (ProbeVerdict::Equal, 0));
}

#[test]
fn head_tail_catches_a_changed_tail() {
    let mut src = Vec::new();
    for i in 0..16384u32 {
        src.push(b'A' + (i / 1024) as u8);
    }
    let mut dest = src.clone();
    for byte in dest[15360..].iter_mut() {
        *byte = b'z';
    }
    assert_eq!(run(8192, &src, &dest), (ProbeVerdict::Different, 8));
    assert_eq!(run(8192, &src, &src), (ProbeVerdict::Equal, 8));
}

#[test]
fn head_difference_ends_the_probe_after_four_steps() {
    assert_eq!(run(2, b"abcdef", b"xbcdef"), (ProbeVerdict::Different, 4));
}

#[test]
fn middle_difference_escapes_a_short_probe() {
    assert_eq!(run(2, b"abcdef", b"abXdef"), (ProbeVerdict::Equal, 8));
    assert_eq!(run(3, b"abcdef", b"abXdef"), (ProbeVerdict::Different, 4));
}

#[test]
fn source_failures_are_logged_and_destination_failures_are_not() {
    let src = source();
    let fail = |ok_steps: usize| {
        let mut probe = Probe::start(4);
        for _ in 0..ok_steps {
            let event = match probe.action() {
                ProbeAction::Read(_, _) => Ok(vec![9, 9, 9, 9]),
                _ => Ok(Vec::new()),
            };
            probe = probe.advance(event, &src).0;
        }
        let (after, note) = probe.advance(Err("boom".to_string()), &src);
        assert_eq!(after.action(), ProbeAction::Finish(ProbeVerdict::Failed));
        note
    };
    let error = |text: &str| {
        Some(LogNote { level: SyncLogLevel::Error, message: text.to_string() })
    };
    assert_eq!(fail(0), error("Failed to open src/log.txt: boom"));
    assert_eq!(fail(1), None);
    assert_eq!(fail(2), error("Failed to read src/log.txt: boom"));
    assert_eq!(fail(3), None);
    assert_eq!(fail(4), error("Failed to seek src/log.txt: boom"));
    assert_eq!(fail(5), None);
    assert_eq!(fail(6), error("Failed to read src/log.txt: boom"));
    assert_eq!(fail(7), None);
}
