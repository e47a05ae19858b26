use zenith_core::error::ZenithError;
use zenith_core::sandbox::Sandbox;
use zenith_core::sandbox::SandboxLimits;
use zenith_core::sandbox::timeout_exceeded;

#[test]
fn test_default_limits() {
    let limits = SandboxLimits::default();
    assert_eq!(limits.max_memory, 16 * 1024 * 1024);
    assert_eq!(limits.cpu_timeout, 100_000_000);
    assert_eq!(limits.max_host_calls, 1000);
}

#[test]
fn test_validate_wasm_bytes_accepts_valid_header() {
    let sandbox = Sandbox::new(SandboxLimits::default());
    // Minimal module header: magic number plus version.
    let header = [0x00, 0x61, 0x73, 0x6d, 0x01, 0x00, 0x00, 0x00];
    assert!(sandbox.validate_wasm_bytes(&header).is_ok());
}

#[test]
fn test_validate_wasm_bytes_rejects_short_input() {
    let sandbox = Sandbox::new(SandboxLimits::default());
    assert_eq!(sandbox.validate_wasm_bytes(&[]), Err(ZenithError::WasmTooSmall));
    assert_eq!(
        sandbox.validate_wasm_bytes(&[0x00, 0x61, 0x73, 0x6d, 0x01, 0x00, 0x00]),
        Err(ZenithError::WasmTooSmall)
    );
}

#[test]
fn test_validate_wasm_bytes_rejects_bad_magic() {
    let sandbox = Sandbox::new(SandboxLimits::default());
    assert_eq!(sandbox.validate_wasm_bytes(b"ZZZZ\x01\x00\x00\x00"), Err(ZenithError::WasmBadMagic));
}

#[test]
fn test_host_call_quota() {
    let limits = SandboxLimits { max_memory: 1024, cpu_timeout: 1_000_000, max_host_calls: 3 };
    let sandbox = Sandbox::new(limits);
    let mut ctx = sandbox.create_context();
    ctx.start();
    assert!(ctx.record_host_call().is_ok());
    assert!(ctx.record_host_call().is_ok());
    assert!(ctx.record_host_call().is_ok());
    // The quota is spent: the fourth call fails, and so does every later
    // one.
    assert_eq!(ctx.record_host_call(), Err(ZenithError::TooManyHostCalls));
    assert_eq!(ctx.record_host_call(), Err(ZenithError::TooManyHostCalls));
}

#[test]
fn test_start_resets_call_counter() {
    let limits = SandboxLimits { max_memory: 1024, cpu_timeout: 1_000_000, max_host_calls: 1 };
    let sandbox = Sandbox::new(limits);
    let mut ctx = sandbox.create_context();
    ctx.start();
    assert!(ctx.record_host_call().is_ok());
    assert!(ctx.record_host_call().is_err());
    // A fresh invocation starts with a fresh quota.
    ctx.start();
    assert!(ctx.record_host_call().is_ok());
}

#[test]
fn test_check_timeout_before_start_passes() {
    let sandbox = Sandbox::new(SandboxLimits::default());
    let ctx = sandbox.create_context();
    assert!(ctx.check_timeout().is_ok());
}

#[test]
fn test_check_timeout_after_budget_exhausted() {
    // A zero budget: once any time at all has passed, the next check
    // within the invocation must report failure.
    let limits = SandboxLimits { max_memory: 1024, cpu_timeout: 0, max_host_calls: 10 };
    let sandbox = Sandbox::new(limits);
    let mut ctx = sandbox.create_context();
    ctx.start();
    // Burn a little CPU so the elapsed time is positive.
    let mut acc: u64 = 0;
    for i in 0..5_000_000u64 {
        acc = acc.wrapping_add(i);
    }
    assert!(acc > 0);
    assert_eq!(ctx.check_timeout(), Err(ZenithError::TimeoutExceeded));
}

#[test]
fn test_check_timeout_generous_budget_passes() {
    // An hour's budget: the check directly after start passes.
    let limits =
        SandboxLimits { max_memory: 1024, cpu_timeout: 3_600_000_000_000, max_host_calls: 10 };
    let sandbox = Sandbox::new(limits);
    let mut ctx = sandbox.create_context();
    ctx.start();
    assert!(ctx.check_timeout().is_ok());
}

#[test]
fn test_timeout_exceeded_is_strict() {
    assert!(!timeout_exceeded(0, 0));
    assert!(!timeout_exceeded(100, 100));
    assert!(timeout_exceeded(101, 100));
    assert!(!timeout_exceeded(99, 100));
}
