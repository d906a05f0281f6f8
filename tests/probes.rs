use sysprobe::catalog::{
    descriptor_positions, directory_operations, error_conditions, file_operations,
    file_permissions, file_rename, file_timestamps, file_truncate, large_file, multiple_handles,
    nested_paths, seek_operations, sequential_batch, stat_operations, text, working_directory,
    BATCH_FILES, LARGE_CHUNKS, LARGE_TARGET, PROBE_MODE,
};
use sysprobe::model::{labelled, push_decimal, repeat_to, resize_to, window_of};
use sysprobe::probe::{judge, same_bytes, Cleanup, ErrorKind, Expect, Guard, Op, Outcome, Probe};
use sysprobe::run::{Action, Run, Verdict};
use sysprobe::seek::{resolve_seek, Cursor, SeekFrom};

fn run_with(probe: Probe, outcomes: Vec<Outcome>) -> (Vec<Verdict>, Vec<Op>) {
    let mut run = Run::start(probe);
    let mut verdicts = Vec::new();
    let mut ops = Vec::new();
    let mut outcomes = outcomes.into_iter();
    while let Action::Perform(op) = run.next_action() {
        ops.push(op);
        let o = outcomes.next().unwrap_or(Outcome::Done);
        verdicts.push(run.record(o));
    }
    (verdicts, ops)
}

#[test]
fn seek_scenario_reads_first_five_then_five_after_offset() {
    let p = seek_operations();
    assert_eq!(p.data[0], b"0123456789ABCDEF\n".to_vec());
    assert_eq!(p.data[0].len(), 17);
    assert_eq!(p.data[1], b"01234".to_vec());
    assert_eq!(p.data[2], b"56789".to_vec());
    assert_eq!(p.paths[0], b"/tmp/wasm_seek_test.txt".to_vec());
    assert_eq!(p.steps[3].op, Op::Seek { handle: 0, from: SeekFrom::Start(5) });
    assert_eq!(p.steps[3].expect, Expect::Position(5));

    let outcomes = vec![
        Outcome::Done,
        Outcome::Done,
        Outcome::Bytes(b"01234".to_vec()),
        Outcome::Position(5),
        Outcome::Bytes(b"56789".to_vec()),
    ];
    let (verdicts, ops) = run_with(p, outcomes);
    assert_eq!(&verdicts[..5], &[Verdict::Pass; 5]);
    assert_eq!(&verdicts[5..], &[Verdict::Ignored, Verdict::Ignored]);
    assert_eq!(ops[5], Op::Close { handle: 0 });
    assert_eq!(ops[6], Op::RemoveFile { path: 0 });
}

#[test]
fn seek_scenario_through_the_cursor_model() {
    let mut c = Cursor::open(b"0123456789ABCDEF\n".to_vec());
    assert_eq!(c.read_exact(5), Some(b"01234".to_vec()));
    assert_eq!(c.seek(SeekFrom::Start(5)), Some(5));
    assert_eq!(c.read_exact(5), Some(b"56789".to_vec()));
    assert_eq!(c.position(), 10);
    assert_eq!(c.read_exact(8), None);
    assert_eq!(c.position(), 10);
    assert_eq!(c.read_to_end(), b"ABCDEF\n".to_vec());
    assert_eq!(c.position(), 17);
    assert_eq!(c.read_to_end(), Vec::<u8>::new());
}

#[test]
fn window_is_the_bytes_at_the_offset() {
    let s = b"0123456789ABCDEF\n";
    assert_eq!(window_of(s, 5, 5), Some(b"56789".to_vec()));
    assert_eq!(window_of(s, 0, 17), Some(s.to_vec()));
    assert_eq!(window_of(s, 17, 0), Some(Vec::new()));
    assert_eq!(window_of(s, 13, 5), None);
    assert_eq!(window_of(s, 18, 0), None);
    assert_eq!(window_of(s, usize::MAX, 2), None);
}

#[test]
fn seeks_land_as_start_end_and_current_say() {
    assert_eq!(resolve_seek(3, 45, SeekFrom::Start(7)), Some(7));
    assert_eq!(resolve_seek(3, 45, SeekFrom::End(0)), Some(45));
    assert_eq!(resolve_seek(3, 45, SeekFrom::End(-5)), Some(40));
    assert_eq!(resolve_seek(3, 45, SeekFrom::End(10)), Some(55));
    assert_eq!(resolve_seek(3, 45, SeekFrom::Current(10)), Some(13));
    assert_eq!(resolve_seek(3, 45, SeekFrom::Current(-3)), Some(0));
    assert_eq!(resolve_seek(3, 45, SeekFrom::Current(-4)), None);
    assert_eq!(resolve_seek(3, 45, SeekFrom::End(-46)), None);
    assert_eq!(resolve_seek(u64::MAX, 0, SeekFrom::Current(1)), None);
    assert_eq!(resolve_seek(u64::MAX, 0, SeekFrom::Current(i64::MIN)), Some(u64::MAX - (1u64 << 63)));
    assert_eq!(resolve_seek(0, 0, SeekFrom::Current(i64::MIN)), None);
}

#[test]
fn descriptor_positions_expect_start_end_and_relative() {
    let p = descriptor_positions();
    assert_eq!(p.data[0].len(), 45);
    assert_eq!(p.data[1], b"iptor".to_vec());
    let positions: Vec<Expect> = p.steps[2..8].iter().map(|s| s.expect).collect();
    assert_eq!(
        positions,
        vec![
            Expect::Position(0),
            Expect::Position(45),
            Expect::Position(0),
            Expect::Bytes(0),
            Expect::Position(0),
            Expect::Position(10),
        ]
    );
}

#[test]
fn truncate_keeps_first_ten_bytes_and_extension_zero_fills() {
    let p = file_truncate();
    assert_eq!(p.data[0].len(), 52);
    assert_eq!(p.data[1], b"This is a ".to_vec());
    assert_eq!(p.data[2], vec![0u8; 10]);
    assert_eq!(p.steps[3].op, Op::SetLen { handle: 0, len: 10 });
    assert_eq!(p.steps[1].expect, Expect::File(52));
}

#[test]
fn resize_cuts_or_pads() {
    assert_eq!(resize_to(b"abcdef", 3), b"abc".to_vec());
    assert_eq!(resize_to(b"abc", 5), vec![b'a', b'b', b'c', 0, 0]);
    assert_eq!(resize_to(b"abc", 0), Vec::<u8>::new());
    assert_eq!(resize_to(b"abc", 3), b"abc".to_vec());
}

#[test]
fn rename_expects_target_content_and_missing_source() {
    let p = file_rename();
    assert_eq!(p.data[0], b"Original content".to_vec());
    assert_eq!(p.steps[2].op, Op::ReadFile { path: 1 });
    assert_eq!(p.steps[2].expect, Expect::Bytes(0));
    assert_eq!(p.steps[3].op, Op::ReadFile { path: 0 });
    assert_eq!(p.steps[3].expect, Expect::FailsWith(ErrorKind::NotFound));

    let good = vec![
        Outcome::Done,
        Outcome::Done,
        Outcome::Bytes(b"Original content".to_vec()),
        Outcome::Failed(ErrorKind::NotFound),
    ];
    let (verdicts, _) = run_with(file_rename(), good);
    assert_eq!(verdicts, vec![Verdict::Pass, Verdict::Pass, Verdict::Pass, Verdict::Pass, Verdict::Ignored]);

    let bad = vec![
        Outcome::Done,
        Outcome::Done,
        Outcome::Bytes(b"Original content".to_vec()),
        Outcome::Bytes(b"Original content".to_vec()),
    ];
    let (verdicts, _) = run_with(file_rename(), bad);
    assert_eq!(verdicts[3], Verdict::Fail);
}

#[test]
fn failed_required_step_skips_to_cleanup() {
    let outcomes = vec![Outcome::Done, Outcome::Failed(ErrorKind::PermissionDenied)];
    let (verdicts, ops) = run_with(file_rename(), outcomes);
    assert_eq!(verdicts, vec![Verdict::Pass, Verdict::Fail, Verdict::Ignored]);
    assert_eq!(ops, vec![
        Op::WriteFile { path: 0, data: 0 },
        Op::Rename { source: 0, target: 1 },
        Op::RemoveFile { path: 0 },
    ]);
}

#[test]
fn rename_cleanup_follows_what_was_made() {
    let (verdicts, ops) = run_with(file_rename(), vec![Outcome::Failed(ErrorKind::PermissionDenied)]);
    assert_eq!(verdicts, vec![Verdict::Fail]);
    assert_eq!(ops, vec![Op::WriteFile { path: 0, data: 0 }]);

    let outcomes = vec![Outcome::Done, Outcome::Done, Outcome::Failed(ErrorKind::Other)];
    let (verdicts, ops) = run_with(file_rename(), outcomes);
    assert_eq!(verdicts, vec![Verdict::Pass, Verdict::Pass, Verdict::Fail, Verdict::Ignored]);
    assert_eq!(ops[3], Op::RemoveFile { path: 1 });
}

#[test]
fn existing_directory_is_left_alone() {
    let (verdicts, ops) = run_with(directory_operations(), vec![Outcome::Failed(ErrorKind::AlreadyExists)]);
    assert_eq!(verdicts, vec![Verdict::Fail]);
    assert_eq!(ops, vec![Op::CreateDir { path: 0 }]);

    let outcomes = vec![Outcome::Done, Outcome::Failed(ErrorKind::Other)];
    let (verdicts, ops) = run_with(directory_operations(), outcomes);
    assert_eq!(verdicts, vec![Verdict::Pass, Verdict::Fail, Verdict::Ignored]);
    assert_eq!(ops[2], Op::RemoveDirAll { path: 0 });
}

#[test]
fn failed_first_write_removes_nothing() {
    for p in [seek_operations(), file_truncate(), file_permissions(), file_timestamps(), stat_operations()] {
        let (verdicts, ops) = run_with(p, vec![Outcome::Failed(ErrorKind::PermissionDenied)]);
        assert_eq!(verdicts, vec![Verdict::Fail]);
        assert_eq!(ops.len(), 1);
    }
    let (verdicts, ops) = run_with(multiple_handles(), vec![Outcome::Failed(ErrorKind::PermissionDenied)]);
    assert_eq!(verdicts, vec![Verdict::Fail]);
    assert_eq!(ops, vec![Op::Create { handle: 0, path: 0 }]);
}

#[test]
fn failed_open_closes_nothing_but_removes_the_file() {
    let outcomes = vec![Outcome::Done, Outcome::Failed(ErrorKind::NotFound)];
    let (verdicts, ops) = run_with(seek_operations(), outcomes);
    assert_eq!(verdicts, vec![Verdict::Pass, Verdict::Fail, Verdict::Ignored]);
    assert_eq!(ops[2], Op::RemoveFile { path: 0 });
}

#[test]
fn failed_step_ends_the_probe_and_removes_its_file() {
    let outcomes = vec![Outcome::Done, Outcome::Failed(ErrorKind::Other)];
    let (verdicts, ops) = run_with(file_operations(), outcomes);
    assert_eq!(verdicts, vec![Verdict::Pass, Verdict::Fail, Verdict::Ignored]);
    assert_eq!(ops[2], Op::RemoveFile { path: 0 });

    let outcomes = vec![
        Outcome::Done,
        Outcome::Bytes(b"Hello from WASM test!\nThis is a test file.\n".to_vec()),
        Outcome::Meta { size: 43, is_file: true, is_dir: false, is_symlink: false },
        Outcome::Done,
    ];
    let (verdicts, ops) = run_with(file_operations(), outcomes);
    assert_eq!(verdicts, vec![Verdict::Pass; 4]);
    assert_eq!(ops.len(), 4);
}

#[test]
fn error_scenarios_must_fail() {
    let p = error_conditions();
    let expects: Vec<Expect> = p.steps.iter().map(|s| s.expect).collect();
    assert_eq!(expects, vec![
        Expect::FailsWith(ErrorKind::NotFound),
        Expect::FailsWith(ErrorKind::NotFound),
        Expect::FailsWith(ErrorKind::NotFound),
        Expect::FailsWith(ErrorKind::NotFound),
        Expect::Done,
        Expect::FailsWith(ErrorKind::NotADirectory),
    ]);

    let successes = vec![
        Outcome::Bytes(Vec::new()),
        Outcome::Count(0),
        Outcome::Done,
        Outcome::Done,
        Outcome::Done,
        Outcome::Done,
    ];
    let (verdicts, _) = run_with(error_conditions(), successes);
    assert_eq!(verdicts, vec![Verdict::Fail]);

    let failures = vec![
        Outcome::Failed(ErrorKind::NotFound),
        Outcome::Failed(ErrorKind::NotFound),
        Outcome::Failed(ErrorKind::NotFound),
        Outcome::Failed(ErrorKind::NotFound),
        Outcome::Done,
        Outcome::Failed(ErrorKind::NotADirectory),
    ];
    let (verdicts, ops) = run_with(error_conditions(), failures);
    assert_eq!(&verdicts[..6], &[Verdict::Pass; 6]);
    assert_eq!(verdicts[6], Verdict::Ignored);
    assert_eq!(ops[6], Op::RemoveFile { path: 3 });
}

#[test]
fn judge_compares_bytes_exactly() {
    let data = vec![b"abc".to_vec()];
    let seen: Vec<Vec<u8>> = Vec::new();
    assert!(judge(Expect::Bytes(0), &Outcome::Bytes(b"abc".to_vec()), &data, &seen));
    assert!(!judge(Expect::Bytes(0), &Outcome::Bytes(b"abd".to_vec()), &data, &seen));
    assert!(!judge(Expect::Bytes(0), &Outcome::Bytes(b"ab".to_vec()), &data, &seen));
    assert!(!judge(Expect::Bytes(1), &Outcome::Bytes(b"abc".to_vec()), &data, &seen));
    assert!(!judge(Expect::Bytes(0), &Outcome::Done, &data, &seen));
    assert!(same_bytes(b"", b""));
    assert!(!same_bytes(b"a", b"b"));
}

#[test]
fn judge_other_expectations() {
    let data: Vec<Vec<u8>> = Vec::new();
    let seen = vec![b"/root".to_vec()];
    let file = Outcome::Meta { size: 17, is_file: true, is_dir: false, is_symlink: false };
    let dir = Outcome::Meta { size: 17, is_file: false, is_dir: true, is_symlink: false };
    let link = Outcome::Meta { size: 17, is_file: true, is_dir: false, is_symlink: true };
    assert!(!judge(Expect::File(17), &link, &data, &seen));
    assert!(!judge(Expect::FileAtLeast(1), &link, &data, &seen));
    assert!(!judge(Expect::ModeIfSupported(0o644), &Outcome::Mode(0o104644), &data, &seen));
    assert!(!judge(Expect::ModeIfSupported(0o644), &Outcome::Mode(0o101644), &data, &seen));
    assert!(judge(Expect::File(17), &file, &data, &seen));
    assert!(!judge(Expect::File(16), &file, &data, &seen));
    assert!(!judge(Expect::File(17), &dir, &data, &seen));
    assert!(judge(Expect::FileAtLeast(16), &file, &data, &seen));
    assert!(!judge(Expect::FileAtLeast(18), &file, &data, &seen));
    assert!(judge(Expect::Count(1), &Outcome::Count(1), &data, &seen));
    assert!(!judge(Expect::Count(1), &Outcome::Count(2), &data, &seen));
    assert!(judge(Expect::Done, &Outcome::Position(3), &data, &seen));
    assert!(!judge(Expect::Done, &Outcome::Failed(ErrorKind::Other), &data, &seen));
    assert!(judge(Expect::Fails, &Outcome::Failed(ErrorKind::Other), &data, &seen));
    assert!(!judge(Expect::Fails, &Outcome::Done, &data, &seen));
    assert!(!judge(Expect::FailsWith(ErrorKind::NotFound), &Outcome::Failed(ErrorKind::Other), &data, &seen));
    assert!(judge(Expect::Any, &Outcome::Failed(ErrorKind::Other), &data, &seen));
    assert!(judge(Expect::Optional, &Outcome::Done, &data, &seen));
    assert!(judge(Expect::Optional, &Outcome::Failed(ErrorKind::Unsupported), &data, &seen));
    assert!(!judge(Expect::Optional, &Outcome::Failed(ErrorKind::NotFound), &data, &seen));
    assert!(judge(Expect::ModeIfSupported(0o644), &Outcome::Mode(0o100644), &data, &seen));
    assert!(!judge(Expect::ModeIfSupported(0o644), &Outcome::Mode(0o100600), &data, &seen));
    assert!(judge(Expect::ModeIfSupported(0o644), &Outcome::Failed(ErrorKind::Unsupported), &data, &seen));
    assert!(judge(Expect::Differs(0), &Outcome::Bytes(b"/tmp/x".to_vec()), &data, &seen));
    assert!(!judge(Expect::Differs(0), &Outcome::Bytes(b"/root".to_vec()), &data, &seen));
    assert!(!judge(Expect::Differs(1), &Outcome::Bytes(b"/tmp/x".to_vec()), &data, &seen));
    assert!(judge(Expect::Position(5), &Outcome::Position(5), &data, &seen));
    assert!(!judge(Expect::Position(5), &Outcome::Position(6), &data, &seen));
}

#[test]
fn batch_files_hold_their_own_index_content() {
    let p = sequential_batch();
    assert_eq!(p.data.len(), BATCH_FILES);
    for i in 0..BATCH_FILES {
        assert_eq!(p.data[i], format!("Content for file {}\n", i).into_bytes());
        assert_eq!(p.paths[i + 1], format!("/tmp/wasm_concurrent/file_{}.txt", i).into_bytes());
        assert_eq!(p.steps[17 + i].op, Op::ReadFile { path: i + 1 });
        assert_eq!(p.steps[17 + i].expect, Expect::Bytes(i));
    }
    let mut outcomes = Vec::new();
    outcomes.push(Outcome::Done);
    outcomes.push(Outcome::Done);
    for _ in 0..15 {
        outcomes.push(Outcome::Done);
    }
    for i in (0..5).rev() {
        outcomes.push(Outcome::Bytes(format!("Content for file {}\n", i).into_bytes()));
    }
    let (verdicts, ops) = run_with(sequential_batch(), outcomes);
    assert_eq!(verdicts[16], Verdict::Pass);
    assert_eq!(verdicts[17], Verdict::Fail);
    assert_eq!(&verdicts[18..], &[Verdict::Ignored; 6]);
    assert_eq!(ops[18], Op::Close { handle: 0 });
    assert_eq!(ops[23], Op::RemoveDirAll { path: 0 });

    let mut outcomes: Vec<Outcome> = (0..17).map(|_| Outcome::Done).collect();
    for i in 0..5 {
        outcomes.push(Outcome::Bytes(format!("Content for file {}\n", i).into_bytes()));
    }
    let (verdicts, _) = run_with(sequential_batch(), outcomes);
    assert_eq!(&verdicts[..27], &[Verdict::Pass; 27]);
}

#[test]
fn simultaneous_handles_write_distinct_contents() {
    let p = multiple_handles();
    assert_eq!(p.data[0], b"Content for file 1\n".to_vec());
    assert_eq!(p.data[1], b"Content for file 2\n".to_vec());
    assert_eq!(p.data[2], b"Content for file 3\n".to_vec());
    assert_eq!(p.steps.len(), 12);
    assert_eq!(p.cleanup.len(), 6);
}

#[test]
fn large_file_is_built_from_sixteen_byte_chunks() {
    let p = large_file();
    assert_eq!(p.data[0], b"0123456789ABCDEF".to_vec());
    assert_eq!(p.data[1].len(), 102400);
    assert_eq!(LARGE_TARGET, 102400);
    assert_eq!(LARGE_CHUNKS, 6400);
    assert!(p.data[1].chunks(16).all(|c| c == b"0123456789ABCDEF"));
    assert_eq!(p.steps.len(), LARGE_CHUNKS + 4);
    assert_eq!(p.steps[LARGE_CHUNKS + 2].expect, Expect::FileAtLeast(102400));
    assert_eq!(p.steps[LARGE_CHUNKS + 3].expect, Expect::Bytes(1));
    assert!(p.steps[1..=LARGE_CHUNKS].iter().all(|s| s.op == Op::WriteAll { handle: 0, data: 0 }));
}

#[test]
fn repeat_cuts_the_last_chunk_short() {
    assert_eq!(repeat_to(b"abc", 7), b"abcabca".to_vec());
    assert_eq!(repeat_to(b"abc", 0), Vec::<u8>::new());
    assert_eq!(repeat_to(b"x", 3), b"xxx".to_vec());
}

#[test]
fn labels_carry_decimal_numbers() {
    assert_eq!(labelled(b"file_", 0, b".txt"), b"file_0.txt".to_vec());
    assert_eq!(labelled(b"file_", 42, b".txt"), b"file_42.txt".to_vec());
    assert_eq!(labelled(b"", u64::MAX, b""), u64::MAX.to_string().into_bytes());
    let mut v = b"n=".to_vec();
    push_decimal(&mut v, 1090);
    assert_eq!(v, b"n=1090".to_vec());
}

#[test]
fn remaining_probes_have_their_contents() {
    assert_eq!(file_operations().data[0], b"Hello from WASM test!\nThis is a test file.\n".to_vec());
    assert_eq!(file_operations().steps[2].expect, Expect::File(43));
    assert_eq!(directory_operations().steps[2].expect, Expect::Count(1));
    assert_eq!(nested_paths().steps[1].op, Op::CreateDirAll { path: 1 });
    assert_eq!(nested_paths().paths[2], b"/tmp/wasm_path_test/nested/file.txt".to_vec());
    assert_eq!(stat_operations().steps[1].expect, Expect::File(17));
    assert_eq!(file_permissions().steps[3].expect, Expect::ModeIfSupported(PROBE_MODE));
    assert_eq!(PROBE_MODE, 0o644);
    assert_eq!(working_directory().steps[3].expect, Expect::Differs(0));
    assert_eq!(file_timestamps().data[1], b"updated content".to_vec());
    assert_eq!(text("Seek operations"), seek_operations().name);
}

#[test]
fn working_directory_must_change() {
    let outcomes = vec![
        Outcome::Bytes(b"/root".to_vec()),
        Outcome::Done,
        Outcome::Done,
        Outcome::Bytes(b"/root".to_vec()),
        Outcome::Done,
    ];
    let (verdicts, ops) = run_with(working_directory(), outcomes);
    assert_eq!(verdicts[3], Verdict::Fail);
    assert_eq!(&ops[4..], &[Op::ChangeDir { path: 1 }, Op::RemoveDir { path: 0 }]);
    let outcomes = vec![
        Outcome::Bytes(b"/root".to_vec()),
        Outcome::Done,
        Outcome::Done,
        Outcome::Bytes(b"/tmp/wasm_cwd_test".to_vec()),
        Outcome::Done,
    ];
    let (verdicts, _) = run_with(working_directory(), outcomes);
    assert_eq!(verdicts[3], Verdict::Pass);
}

#[test]
fn empty_probe_goes_straight_to_cleanup() {
    let cleanup = vec![Cleanup { op: Op::CurrentDir, guard: Guard::After(0) }];
    let p = Probe { name: Vec::new(), paths: Vec::new(), steps: Vec::new(), cleanup, data: Vec::new() };
    let (verdicts, ops) = run_with(p, Vec::new());
    assert!(verdicts.is_empty());
    assert!(ops.is_empty());
}
