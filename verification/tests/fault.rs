use avislya::fault::FaultAction;

#[test]
fn a_fault_halts() {
    assert_eq!(avislya::fault::panic(), FaultAction::Halt);
    assert_ne!(avislya::fault::panic(), FaultAction::Resume);
}
