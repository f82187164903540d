use gblite::config::RuntimeConfig;

#[test]
fn default_config() {
    let cfg = RuntimeConfig::new();
    assert!(cfg.rom_file.is_none());
    assert!(cfg.breakpoints.is_empty());
    assert!(cfg.killpoint.is_none());
    assert!(!cfg.dump_trace && !cfg.dump_mem && !cfg.verbose);
}
