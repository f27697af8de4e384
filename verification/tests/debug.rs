use tetanes_core::common::NesRegion;
use tetanes_core::cpu::{Cpu, Status};
use tetanes_core::debug::expr::{Expr, ParseError};
use tetanes_core::debug::{
    Access, AccessHit, Breakpoint, Breakpoints, ByteKind, CallFrame, CallStack, CodeMap,
    FrameKind, PcHistory,
};

fn cpu() -> Cpu {
    Cpu::new(NesRegion::Ntsc)
}

fn eval(source: &str, cpu: &Cpu) -> i32 {
    Expr::parse(source).expect(source).eval(cpu)
}

fn breakpoint(start: u16, end: u16, access: u8) -> Breakpoint {
    Breakpoint {
        start,
        end,
        offset: None,
        access,
        breaks: true,
        condition: None,
    }
}

#[test]
fn an_unused_history_reads_as_empty() {
    let history = PcHistory::new(4);
    assert!(history.is_empty());
    assert_eq!(history.iter().len(), 0);
}

#[test]
fn a_partly_filled_history_reads_oldest_first() {
    let mut history = PcHistory::new(4);
    for pc in [0xC000, 0xC003, 0xC005] {
        history.push(pc);
    }
    assert_eq!(history.len(), 3);
    assert_eq!(history.iter(), [0xC000, 0xC003, 0xC005]);
}

#[test]
fn a_wrapped_history_keeps_the_most_recent_oldest_first() {
    let mut history = PcHistory::new(3);
    for pc in [0x8000, 0x8001, 0x8002, 0x8003, 0x8004] {
        history.push(pc);
    }
    assert_eq!(history.len(), 3);
    assert_eq!(history.iter(), [0x8002, 0x8003, 0x8004]);
}

#[test]
fn clearing_keeps_the_capacity_and_starts_over() {
    let mut history = PcHistory::new(2);
    history.push(0xE000);
    history.clear();
    assert!(history.is_empty());
    history.push(0xE001);
    assert_eq!(history.iter(), [0xE001]);
}

#[test]
fn a_history_of_no_capacity_still_keeps_the_last_entry() {
    let mut history = PcHistory::new(0);
    history.push(0x1234);
    history.push(0x5678);
    assert_eq!(history.iter(), [0x5678]);
}

#[test]
fn a_mark_records_its_kind_and_leaves_its_neighbours_alone() {
    let mut map = CodeMap::new(4, 0);
    map.mark(1, ByteKind::CODE);
    assert_eq!(map.kind(1), ByteKind::CODE);
    assert!(map.is_code(1));
    assert_eq!(map.kind(0), ByteKind::empty());
    assert_eq!(map.kind(2), ByteKind::empty());
}

#[test]
fn kinds_accumulate_rather_than_replace_one_another() {
    let mut map = CodeMap::new(1, 0);
    map.mark(0, ByteKind::SUB_ENTRY);
    map.mark(0, ByteKind::CODE);
    assert_eq!(map.kind(0), ByteKind::CODE | ByteKind::SUB_ENTRY);
}

#[test]
fn an_offset_past_the_end_is_ignored() {
    let mut map = CodeMap::new(1, 0);
    map.mark(64, ByteKind::CODE);
    assert_eq!(map.kind(64), ByteKind::empty());
    assert!(!map.is_code(64));
    assert_eq!(map.generation(), 0);
}

#[test]
fn the_generation_moves_only_when_the_map_learns_something() {
    let mut map = CodeMap::new(2, 0);
    map.mark(0, ByteKind::CODE);
    let learned = map.generation();
    assert_ne!(learned, 0, "a first mark is something new");

    map.mark(0, ByteKind::CODE);
    assert_eq!(
        map.generation(),
        learned,
        "re-marking what is already known rebuilds every view for nothing"
    );

    map.mark(0, ByteKind::SUB_ENTRY);
    assert_ne!(
        map.generation(),
        learned,
        "a second kind on a marked byte is still new information"
    );
}

#[test]
fn a_map_answers_only_for_the_cart_it_was_recorded_against() {
    let map = CodeMap::new(16, 0xDEAD_BEEF);
    assert!(map.covers(0xDEAD_BEEF, 16));
    assert!(!map.covers(0xDEAD_BEEF, 32));
    assert!(!map.covers(0x1234_5678, 16));
}

#[test]
fn unwinding_drops_the_frames_the_stack_pointer_has_risen_past() {
    let mut stack = CallStack::new();
    stack.push(CallFrame { caller: 0x8000, entry: 0x9000, sp: 0xFB, kind: FrameKind::Call });
    stack.push(CallFrame { caller: 0x9003, entry: 0xA000, sp: 0xF9, kind: FrameKind::Nmi });
    assert_eq!(stack.len(), 2);

    stack.unwind_to(0xF9);
    assert_eq!(stack.len(), 2, "a stack pointer at the frame keeps it");
    stack.unwind_to(0xFA);
    assert_eq!(stack.len(), 1);
    assert_eq!(stack.frames()[0].entry, 0x9000);
    stack.unwind_to(0xFF);
    assert!(stack.is_empty());
}

#[test]
fn clearing_a_call_stack_empties_it() {
    let mut stack = CallStack::new();
    stack.push(CallFrame { caller: 0x8000, entry: 0x9000, sp: 0xFB, kind: FrameKind::Brk });
    stack.clear();
    assert!(stack.is_empty());
    assert_eq!(stack.frames().len(), 0);
}

#[test]
fn a_range_covers_both_ends_and_nothing_past_them() {
    let cpu = cpu();
    let breakpoints = Breakpoints::new(vec![breakpoint(0x0300, 0x0302, Access::WRITE)]);
    let offsets = [None];
    for addr in [0x0300, 0x0301, 0x0302] {
        assert!(
            breakpoints.check(&cpu, &offsets, addr, Access::WRITE).stop,
            "${addr:04X}"
        );
    }
    for addr in [0x02FF, 0x0303] {
        assert!(
            !breakpoints.check(&cpu, &offsets, addr, Access::WRITE).stop,
            "${addr:04X}"
        );
    }
}

#[test]
fn an_access_the_breakpoint_does_not_watch_is_ignored() {
    let cpu = cpu();
    let breakpoints = Breakpoints::new(vec![breakpoint(0x0300, 0x0300, Access::WRITE)]);
    let offsets = [None];
    assert!(breakpoints.check(&cpu, &offsets, 0x0300, Access::WRITE).stop);
    assert!(!breakpoints.check(&cpu, &offsets, 0x0300, Access::READ).stop);
}

#[test]
fn a_condition_narrows_what_a_breakpoint_stops_on() {
    let mut cpu = cpu();
    let breakpoints = Breakpoints::new(vec![Breakpoint {
        condition: Some(Expr::parse("a == 0x42").expect("parses")),
        ..breakpoint(0x0300, 0x0300, Access::WRITE)
    }]);
    let offsets = [None];

    cpu.acc = 0x01;
    assert!(
        !breakpoints.check(&cpu, &offsets, 0x0300, Access::WRITE).stop,
        "a condition that does not hold stopped it"
    );

    cpu.acc = 0x42;
    assert!(
        breakpoints.check(&cpu, &offsets, 0x0300, Access::WRITE).stop,
        "a condition that holds did not stop it"
    );
}

#[test]
fn a_recording_breakpoint_is_reported_without_stopping() {
    let cpu = cpu();
    let breakpoints = Breakpoints::new(vec![Breakpoint {
        breaks: false,
        ..breakpoint(0x0300, 0x0300, Access::WRITE)
    }]);
    let verdict = breakpoints.check(&cpu, &[None], 0x0300, Access::WRITE);
    assert!(!verdict.stop);
    assert!(verdict.record);
}

#[test]
fn a_breakpoint_pinned_to_a_bank_answers_only_while_that_bank_is_mapped() {
    let pinned = Breakpoint {
        offset: Some(0x4000),
        ..breakpoint(0xBFFF, 0xC000, Access::EXEC)
    };
    assert!(pinned.matches(Some(0x4000), 0xC000, Access::EXEC));
    assert!(!pinned.matches(Some(0x0000), 0xBFFF, Access::EXEC));
    assert!(!pinned.matches(None, 0xC000, Access::EXEC));
    assert!(pinned.covers(0xC000, Access::EXEC));
    assert!(breakpoint(0x0300, 0x0300, Access::WRITE).matches(None, 0x0300, Access::WRITE));
}

#[test]
fn the_bitmap_watches_exactly_the_covered_addresses() {
    let breakpoints = Breakpoints::new(vec![
        breakpoint(0x0010, 0x0012, Access::READ),
        breakpoint(0xFFFF, 0xFFFF, Access::EXEC),
    ]);
    assert!(breakpoints.watches(0x0010));
    assert!(breakpoints.watches(0x0012));
    assert!(breakpoints.watches(0xFFFF));
    assert!(!breakpoints.watches(0x0013));
    assert!(!breakpoints.watches(0x000F));
    assert!(!Breakpoints::new(Vec::new()).watches(0x0010));
    assert!(Breakpoints::new(Vec::new()).is_empty());
}

#[test]
fn a_recording_breakpoint_stops_collecting_at_its_cap() {
    let mut breakpoints = Breakpoints::new(vec![Breakpoint {
        breaks: false,
        ..breakpoint(0x0300, 0x0300, Access::WRITE)
    }]);
    for _ in 0..Breakpoints::MAX_HITS * 2 {
        breakpoints.record(AccessHit {
            pc: 0xC000,
            addr: 0x0300,
            access: Access::WRITE,
            value: 0,
        });
    }
    assert_eq!(breakpoints.drain_hits().len(), Breakpoints::MAX_HITS);
}

#[test]
fn draining_twice_reports_each_hit_once() {
    let mut breakpoints = Breakpoints::new(Vec::new());
    let hit = AccessHit { pc: 0xC000, addr: 0x0300, access: Access::WRITE, value: 0x42 };
    breakpoints.record(hit);
    breakpoints.record(AccessHit { value: 0x43, ..hit });
    let hits = breakpoints.drain_hits();
    assert_eq!(hits.len(), 2);
    assert_eq!(hits[0].value, 0x42);
    assert!(breakpoints.drain_hits().is_empty());

    breakpoints.restore_hits(hits);
    let mut replacement = Breakpoints::new(vec![breakpoint(0x0000, 0x0000, Access::EXEC)]);
    replacement.adopt_hits(&mut breakpoints);
    assert!(breakpoints.drain_hits().is_empty());
    assert_eq!(replacement.drain_hits().len(), 2);
}

#[test]
fn breakpoints_past_the_cap_are_dropped() {
    let breakpoints = Breakpoints::new(
        (0..Breakpoints::MAX as u16 + 8)
            .map(|i| breakpoint(0x0300 + i, 0x0300 + i, Access::WRITE))
            .collect(),
    );
    assert_eq!(breakpoints.list().len(), Breakpoints::MAX);
}

#[test]
fn registers_and_flags_read_off_the_cpu() {
    let mut cpu = cpu();
    cpu.acc = 0x42;
    cpu.x = 0x10;
    cpu.sp = 0xFD;
    cpu.status.set(Status::Z, true);
    cpu.status.set(Status::C, false);

    assert_eq!(eval("A", &cpu), 0x42);
    assert_eq!(eval("x", &cpu), 0x10);
    assert_eq!(eval("SP", &cpu), 0xFD);
    assert_eq!(eval("Z", &cpu), 1);
    assert_eq!(eval("C", &cpu), 0);
    assert_eq!(eval("P", &cpu), i32::from(cpu.status.bits()));
}

#[test]
fn numbers_parse_in_every_base_the_debugger_writes() {
    let cpu = cpu();
    assert_eq!(eval("$FF", &cpu), 255);
    assert_eq!(eval("0xff", &cpu), 255);
    assert_eq!(eval("255", &cpu), 255);
    assert_eq!(eval("0b1111_1111", &cpu), 255);
}

#[test]
fn mem_reads_a_byte_and_mem16_a_word() {
    let mut cpu = cpu();
    cpu.mem[0x0300] = 0x34;
    cpu.mem[0x0301] = 0x12;

    assert_eq!(eval("mem[0x300]", &cpu), 0x34);
    assert_eq!(eval("mem16[0x300]", &cpu), 0x1234);
    assert_eq!(eval("MEM[$0300]", &cpu), 0x34);
}

#[test]
fn a_memory_read_takes_an_expression_for_its_address() {
    let mut cpu = cpu();
    cpu.x = 0x05;
    cpu.mem[0x0005] = 0x99;
    assert_eq!(eval("mem[x]", &cpu), 0x99);
}

#[test]
fn operators_bind_in_the_usual_order() {
    let mut cpu = cpu();
    cpu.acc = 1;
    cpu.x = 2;

    assert_eq!(eval("A == 1 && X == 2", &cpu), 1);
    assert_eq!(eval("A == 1 && X == 3", &cpu), 0);
    assert_eq!(eval("A == 9 || X == 2", &cpu), 1);
    assert_eq!(eval("A < X", &cpu), 1);
    assert_eq!(eval("A >= X", &cpu), 0);
    assert_eq!(eval("!(A == 1)", &cpu), 0);
    assert_eq!(eval("(A == 9 || X == 2) && A == 1", &cpu), 1);
}

#[test]
fn a_comparison_answers_true_or_false_where_a_read_names_a_number() {
    for source in ["a == 1", "a < 1", "!a", "a == 1 && x == 2", "z || c"] {
        assert!(Expr::parse(source).expect(source).is_boolean(), "{source}");
    }
    for source in ["a", "mem[0x300]", "mem16[0xFFFC]", "0xFF", "p"] {
        assert!(!Expr::parse(source).expect(source).is_boolean(), "{source}");
    }
}

#[test]
fn a_condition_is_true_when_it_comes_to_anything_but_zero() {
    let mut cpu = cpu();
    cpu.acc = 0x42;
    assert!(Expr::parse("A").expect("parses").is_true(&cpu));
    assert!(!Expr::parse("A == 0").expect("parses").is_true(&cpu));
}

#[test]
fn what_is_not_an_expression_is_refused() {
    assert_eq!(Expr::parse(""), Err(ParseError::UnexpectedEnd));
    assert_eq!(Expr::parse("A =="), Err(ParseError::UnexpectedEnd));
    assert_eq!(Expr::parse("mem[0"), Err(ParseError::Expected("]")));
    assert_eq!(Expr::parse("(A"), Err(ParseError::Expected(")")));
    assert_eq!(
        Expr::parse("foo"),
        Err(ParseError::UnknownName("foo".to_string()))
    );
    assert_eq!(
        Expr::parse("a @ 1"),
        Err(ParseError::Unexpected("@".to_string()))
    );
    assert_eq!(Expr::parse("mem 0"), Err(ParseError::Expected("[")));
    assert_eq!(
        Expr::parse("[0x300]"),
        Err(ParseError::Unexpected("[".to_string())),
        "a bare bracket is not a memory read"
    );
    assert_eq!(
        Expr::parse("$FFFFFFFFFF"),
        Err(ParseError::TooLarge("FFFFFFFFFF".to_string()))
    );
}

#[test]
fn nesting_past_the_evaluation_stack_is_refused() {
    let deep = format!(
        "{}1{}",
        "!(".repeat(Expr::MAX_DEPTH + 4),
        ")".repeat(Expr::MAX_DEPTH + 4)
    );
    assert!(Expr::parse(&deep).is_ok(), "unary nesting stays one deep");

    let wide = (0..=Expr::MAX_DEPTH)
        .map(|_| "(1 == 1")
        .collect::<Vec<_>>()
        .join(" && ")
        + &")".repeat(Expr::MAX_DEPTH + 1);
    assert_eq!(Expr::parse(&wide), Err(ParseError::TooDeep));
}

#[test]
fn nesting_past_what_parsing_will_follow_is_refused() {
    let nested = |count: usize| format!("{}1{}", "(".repeat(count), ")".repeat(count));
    assert!(Expr::parse(&nested(Expr::MAX_NESTING - 1)).is_ok());
    assert_eq!(
        Expr::parse(&nested(Expr::MAX_NESTING + 1)),
        Err(ParseError::TooDeep)
    );
    assert_eq!(Expr::parse(&nested(100_000)), Err(ParseError::TooDeep));
}

#[test]
fn the_source_text_is_kept() {
    let expr = Expr::parse("  a == 0xFF  ").expect("parses");
    assert_eq!(expr.source(), "a == 0xFF");
    assert_eq!(expr.source().to_string(), "a == 0xFF");
}

#[test]
fn a_recording_breakpoint_collects_hits_without_stopping() {
    let cpu = cpu();
    let mut breakpoints = Breakpoints::new(vec![Breakpoint {
        breaks: false,
        ..breakpoint(0x0300, 0x0300, Access::WRITE)
    }]);
    let mut access_hit = None;
    breakpoints.check_access(&cpu, &[None], 0xC000, 0x0300, Access::WRITE, 0x42, &mut access_hit);
    breakpoints.check_access(&cpu, &[None], 0xC002, 0x0300, Access::WRITE, 0x43, &mut access_hit);
    assert_eq!(access_hit, None, "a breakpoint that records stopped it");

    let hits = breakpoints.drain_hits();
    assert_eq!(hits.len(), 2);
    assert_eq!(hits[0].value, 0x42);
    assert!(
        breakpoints.drain_hits().is_empty(),
        "draining twice repeats what was already reported"
    );
}

#[test]
fn the_first_stopping_hit_is_the_one_kept() {
    let cpu = cpu();
    let mut breakpoints = Breakpoints::new(vec![breakpoint(0x0010, 0x0010, Access::WRITE)]);
    let mut access_hit = None;
    breakpoints.check_access(&cpu, &[None], 0x0000, 0x0010, Access::WRITE, 0x06, &mut access_hit);
    breakpoints.check_access(&cpu, &[None], 0x0002, 0x0010, Access::WRITE, 0x07, &mut access_hit);
    let hit = access_hit.expect("the write was caught");
    assert_eq!(hit.value, 0x06);
    assert_eq!(hit.pc, 0x0000);
    assert!(breakpoints.drain_hits().is_empty(), "a stopping breakpoint logs nothing");
}

#[test]
fn a_recording_breakpoint_logs_each_execution() {
    let mut cpu = cpu();
    cpu.mem[0x0000] = 0xA9;
    cpu.mem[0x0001] = 0x42;
    let mut breakpoints = Breakpoints::new(vec![Breakpoint {
        breaks: false,
        ..breakpoint(0x0000, 0x0000, Access::EXEC)
    }]);
    for _ in 0..2 {
        breakpoints.check_exec(&cpu, &[None], 0x0000);
    }
    breakpoints.check_exec(&cpu, &[None], 0x0001);
    let hits = breakpoints.drain_hits();
    assert_eq!(hits.len(), 2);
    assert_eq!(hits[0].access, Access::EXEC);
    assert_eq!(hits[0].addr, 0x0000);
    assert_eq!(hits[0].value, 0xA9, "the opcode is what executed");
}

#[test]
fn a_read_breakpoint_does_not_fire_on_an_instruction_fetch() {
    let cpu = cpu();
    let mut breakpoints = Breakpoints::new(vec![breakpoint(0x0000, 0x0001, Access::READ)]);
    breakpoints.check_exec(&cpu, &[None], 0x0000);
    assert!(breakpoints.drain_hits().is_empty());
    assert!(!breakpoints.check(&cpu, &[None], 0x0000, Access::EXEC).stop);
}
