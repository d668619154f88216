use symbolize::bridge::{pcinfo_record, syminfo_record, MISS_STATUS};
use symbolize::resolver::{Phase, ResolveSession, Resolver, StatePlan, Step};
use symbolize::symbol::{BytesOrWideString, Symbol, SymbolName};

/// A stand-in for the native backend: canned answers for one address,
/// with counters for every primitive the shell would call.
struct Backend {
    /// `Some((status, raw callback data))` when the line-table lookup
    /// fires its callback; `None` with a nonzero status when it misses.
    line: Option<(usize, Option<Vec<u8>>, u32, Option<Vec<u8>>)>,
    /// Raw symbol-table callback data when that lookup fires; `None`
    /// when it misses.
    sym: Option<(usize, Option<Vec<u8>>)>,
    created: u32,
    line_lookups: u32,
    sym_lookups: u32,
}

impl Backend {
    fn new(
        line: Option<(usize, Option<Vec<u8>>, u32, Option<Vec<u8>>)>,
        sym: Option<(usize, Option<Vec<u8>>)>,
    ) -> Backend {
        Backend { line, sym, created: 0, line_lookups: 0, sym_lookups: 0 }
    }

    fn create_state(&mut self, handle: usize) -> usize {
        self.created += 1;
        handle
    }
}

/// Drives one resolution the way the unverified shell does, collecting
/// every record released for the user's closure.
fn resolve_with(resolver: &mut Resolver, backend: &mut Backend, addr: usize) -> Vec<Symbol> {
    let state = match resolver.state_plan() {
        StatePlan::Create => {
            let handle = backend.create_state(0x1000);
            resolver.state_created(handle);
            match resolver.state_plan() {
                StatePlan::Use { state } => state,
                _ => return Vec::new(),
            }
        }
        StatePlan::Use { state } => state,
        StatePlan::Skip => return Vec::new(),
    };
    let mut out = Vec::new();
    let mut session = ResolveSession::begin_lookup(state, addr);
    loop {
        match session.step() {
            Step::QueryLine { .. } => {
                backend.line_lookups += 1;
                match backend.line.clone() {
                    Some((pc, filename, lineno, function)) => {
                        let (status, record) = pcinfo_record(pc, filename, lineno, function);
                        session.on_line_outcome(status, record);
                    }
                    None => session.on_line_outcome(-1, None),
                }
            }
            Step::QuerySym { .. } => {
                backend.sym_lookups += 1;
                match backend.sym.clone() {
                    Some((pc, symname)) => {
                        let record = syminfo_record(pc, symname);
                        session.on_sym_outcome(Some(record));
                    }
                    None => session.on_sym_outcome(None),
                }
            }
            Step::Deliver => {
                if let Some(sym) = session.take_delivery() {
                    out.push(sym);
                }
            }
            Step::Done => break,
        }
    }
    out
}

fn name_bytes(s: &Symbol) -> Option<Vec<u8>> {
    s.name().map(|n: SymbolName| n.as_bytes().clone())
}

#[test]
fn line_table_hit_delivers_complete_record() {
    let mut resolver = Resolver::new();
    let mut backend = Backend::new(
        Some((0x4242, Some(b"main.rs".to_vec()), 17, Some(b"main".to_vec()))),
        Some((0x4242, Some(b"main".to_vec()))),
    );
    let out = resolve_with(&mut resolver, &mut backend, 0x4242);
    assert_eq!(out.len(), 1);
    let sym = &out[0];
    assert_eq!(sym.addr(), Some(0x4242));
    assert_eq!(name_bytes(sym), Some(b"main".to_vec()));
    assert_eq!(sym.filename().cloned(), Some(b"main.rs".to_vec()));
    assert_eq!(sym.lineno(), Some(17));
    match sym {
        Symbol::Pcinfo { .. } => {}
        Symbol::Syminfo { .. } => panic!("expected a line-table record"),
    }
}

#[test]
fn line_table_hit_skips_symbol_table() {
    let mut resolver = Resolver::new();
    let mut backend = Backend::new(
        Some((0x77, Some(b"lib.rs".to_vec()), 3, Some(b"f".to_vec()))),
        Some((0x77, Some(b"f".to_vec()))),
    );
    let out = resolve_with(&mut resolver, &mut backend, 0x77);
    assert_eq!(out.len(), 1);
    assert_eq!(backend.line_lookups, 1);
    assert_eq!(backend.sym_lookups, 0);
}

#[test]
fn symbol_table_fallback_on_line_miss() {
    let mut resolver = Resolver::new();
    let mut backend = Backend::new(None, Some((0x99, Some(b"memcpy".to_vec()))));
    let out = resolve_with(&mut resolver, &mut backend, 0x99);
    assert_eq!(out.len(), 1);
    assert_eq!(backend.sym_lookups, 1);
    let sym = &out[0];
    match sym {
        Symbol::Syminfo { .. } => {}
        Symbol::Pcinfo { .. } => panic!("expected a symbol-table record"),
    }
    assert_eq!(name_bytes(sym), Some(b"memcpy".to_vec()));
    assert_eq!(sym.filename(), None);
    assert!(sym.filename_raw().is_none());
    assert_eq!(sym.lineno(), None);
}

#[test]
fn total_miss_delivers_nothing() {
    let mut resolver = Resolver::new();
    let mut backend = Backend::new(None, None);
    let out = resolve_with(&mut resolver, &mut backend, 0xdead);
    assert_eq!(out.len(), 0);
    assert_eq!(backend.line_lookups, 1);
    assert_eq!(backend.sym_lookups, 1);
}

#[test]
fn incomplete_line_callback_is_a_miss() {
    // A line-table callback firing without a function name must not build
    // a record: the bridge signals a miss and the fallback delivers the
    // symbol-table record instead.
    let mut resolver = Resolver::new();
    let mut backend = Backend::new(
        Some((0x5150, Some(b"a.rs".to_vec()), 9, None)),
        Some((0x5150, Some(b"known".to_vec()))),
    );
    let out = resolve_with(&mut resolver, &mut backend, 0x5150);
    assert_eq!(out.len(), 1);
    assert_eq!(backend.sym_lookups, 1);
    assert_eq!(name_bytes(&out[0]), Some(b"known".to_vec()));
    assert_eq!(out[0].lineno(), None);
}

#[test]
fn resolve_twice_is_idempotent_and_creates_state_once() {
    let mut resolver = Resolver::new();
    let mut backend = Backend::new(
        Some((0x31, Some(b"x.rs".to_vec()), 5, Some(b"g".to_vec()))),
        None,
    );
    let first = resolve_with(&mut resolver, &mut backend, 0x31);
    let second = resolve_with(&mut resolver, &mut backend, 0x31);
    assert_eq!(backend.created, 1);
    assert_eq!(first.len(), 1);
    assert_eq!(second.len(), 1);
    assert_eq!(first[0].addr(), second[0].addr());
    assert_eq!(name_bytes(&first[0]), name_bytes(&second[0]));
    assert_eq!(first[0].filename().cloned(), second[0].filename().cloned());
    assert_eq!(first[0].lineno(), second[0].lineno());
}

#[test]
fn failed_creation_degrades_to_no_op() {
    let mut resolver = Resolver::new();
    resolver.state_created(0);
    match resolver.state_plan() {
        StatePlan::Skip => {}
        _ => panic!("a null handle must disable resolution"),
    }
    let mut backend = Backend::new(
        Some((0x1, Some(b"y.rs".to_vec()), 1, Some(b"h".to_vec()))),
        Some((0x1, Some(b"h".to_vec()))),
    );
    let out = resolve_with(&mut resolver, &mut backend, 0x1);
    assert_eq!(out.len(), 0);
    assert_eq!(backend.created, 0);
    assert_eq!(backend.line_lookups, 0);
    assert_eq!(backend.sym_lookups, 0);
}

#[test]
fn session_never_delivers_twice() {
    let mut session = ResolveSession::begin_lookup(0x1000, 0x40);
    let record = syminfo_record(0x40, Some(b"once".to_vec()));
    session.on_line_outcome(-1, None);
    session.on_sym_outcome(Some(record));
    assert!(matches!(session.step(), Step::Deliver));
    assert!(session.take_delivery().is_some());
    assert!(matches!(session.step(), Step::Done));
    assert!(session.take_delivery().is_none());
    assert_eq!(session.delivered, 1);
}

#[test]
fn pcinfo_bridge_builds_record_only_when_complete() {
    let (status, record) = pcinfo_record(0x10, Some(b"f.rs".to_vec()), 2, Some(b"f".to_vec()));
    assert_eq!(status, 0);
    match record {
        Some(Symbol::Pcinfo { pc, filename, lineno, function }) => {
            assert_eq!(pc, 0x10);
            assert_eq!(filename, b"f.rs".to_vec());
            assert_eq!(lineno, 2);
            assert_eq!(function, Some(b"f".to_vec()));
        }
        _ => panic!("complete data must build a line-table record"),
    }

    let (status, record) = pcinfo_record(0x10, None, 2, Some(b"f".to_vec()));
    assert_eq!(status, MISS_STATUS);
    assert!(record.is_none());

    let (status, record) = pcinfo_record(0x10, Some(b"f.rs".to_vec()), 2, None);
    assert_eq!(status, MISS_STATUS);
    assert!(record.is_none());
}

#[test]
fn syminfo_bridge_keeps_missing_name() {
    let sym = syminfo_record(0x8, None);
    assert!(sym.name().is_none());
    assert_eq!(sym.addr(), Some(0x8));
    match sym {
        Symbol::Syminfo { pc, symname } => {
            assert_eq!(pc, 0x8);
            assert_eq!(symname, None);
        }
        _ => panic!("expected a symbol-table record"),
    }
}

#[test]
fn null_address_accessor() {
    let sym = syminfo_record(0, Some(b"n".to_vec()));
    assert_eq!(sym.addr(), None);
}

#[test]
fn filename_raw_carries_platform_bytes() {
    let sym = Symbol::Pcinfo {
        pc: 0x2,
        filename: b"/tmp/z.c".to_vec(),
        lineno: 44,
        function: Some(b"z".to_vec()),
    };
    match sym.filename_raw() {
        Some(BytesOrWideString::Bytes(b)) => assert_eq!(b, b"/tmp/z.c".to_vec()),
        None => panic!("a line-table record carries a file name"),
    }
    let name = sym.name().expect("function name present");
    assert_eq!(name.as_bytes(), &b"z".to_vec());
    let again = SymbolName::new(b"z".to_vec());
    assert_eq!(again.as_bytes(), &b"z".to_vec());
}

#[test]
fn line_phase_is_inspectable() {
    let mut session = ResolveSession::begin_lookup(0x2000, 0x9);
    assert!(matches!(session.step(), Step::QueryLine { state: 0x2000, addr: 0x9 }));
    session.on_line_outcome(0, None);
    // A zero status with no bridged record leaves nothing to deliver and
    // does not fall back to the symbol table.
    assert!(matches!(session.step(), Step::Done));
    assert!(matches!(session.phase, Phase::Finished));
}
