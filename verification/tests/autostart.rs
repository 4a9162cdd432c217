use codex_peek::windows::autostart::{
    autostart_command, set_autostart, AutostartCommandError, AutostartError, RegistryBackend,
    RegistryCall,
    RUN_KEY, VALUE_NAME,
};

#[derive(Default)]
struct MemoryRegistry {
    value: Option<String>,
    corrupt_on_write: bool,
    operations: Vec<&'static str>,
}

impl RegistryBackend for MemoryRegistry {
    type Error = String;

    fn calls(&self) -> vstd::seq::Seq<RegistryCall<String>> {
        vstd::seq::Seq::empty()
    }

    fn write(&mut self, value: &str) -> Result<(), String> {
        self.operations.push("write");
        self.value = Some(if self.corrupt_on_write { format!("{value}x") } else { value.to_string() });
        Ok(())
    }

    fn read(&mut self) -> Result<Option<String>, String> {
        self.operations.push("read");
        Ok(self.value.clone())
    }

    fn remove(&mut self) -> Result<(), String> {
        self.operations.push("remove");
        self.value = None;
        Ok(())
    }
}

#[test]
fn startup_command_quotes_the_executable() {
    assert_eq!(
        autostart_command(Some(r"C:\Program Files\Codex\peek.exe")).unwrap(),
        "\"C:\\Program Files\\Codex\\peek.exe\" --startup"
    );
    assert_eq!(autostart_command(None), Err(AutostartCommandError::NotUnicode));
    assert_eq!(
        autostart_command(Some("C:\\bad\"name.exe")),
        Err(AutostartCommandError::UnsafeCharacter)
    );
    assert_eq!(autostart_command(Some("C:\\nul\0.exe")), Err(AutostartCommandError::UnsafeCharacter));
    assert!(RUN_KEY.ends_with("\\Run"));
    assert_eq!(VALUE_NAME, "CodexUsageMonitor");
}

#[test]
fn enabling_writes_and_verifies_the_command() {
    let mut registry = MemoryRegistry::default();
    set_autostart(&mut registry, true, Some("C:\\peek.exe")).unwrap();
    assert_eq!(registry.value.as_deref(), Some("\"C:\\peek.exe\" --startup"));
    assert_eq!(registry.operations, vec!["write", "read"]);
}

#[test]
fn a_different_value_read_back_is_a_verification_failure() {
    let mut registry = MemoryRegistry { corrupt_on_write: true, ..MemoryRegistry::default() };
    assert!(matches!(
        set_autostart(&mut registry, true, Some("C:\\peek.exe")),
        Err(AutostartError::VerificationFailed)
    ));
}

#[test]
fn disabling_removes_the_value_and_an_unsafe_path_touches_nothing() {
    let mut registry = MemoryRegistry { value: Some("old".to_string()), ..MemoryRegistry::default() };
    set_autostart(&mut registry, false, None).unwrap();
    assert_eq!(registry.value, None);
    assert_eq!(registry.operations, vec!["remove"]);

    let mut untouched = MemoryRegistry::default();
    assert!(matches!(
        set_autostart(&mut untouched, true, Some("a\"b")),
        Err(AutostartError::Command(AutostartCommandError::UnsafeCharacter))
    ));
    assert!(untouched.operations.is_empty());
}
