use sevcheck::params::kvm_sev_parameter_enabled;

#[test]
fn kvm_sev_parameter_values() {
    assert!(kvm_sev_parameter_enabled(&b"1".to_vec()));
    assert!(kvm_sev_parameter_enabled(&b"1\n".to_vec()));
    assert!(kvm_sev_parameter_enabled(&b"  1  ".to_vec()));
    assert!(kvm_sev_parameter_enabled(&b"\t1\r\n".to_vec()));

    assert!(!kvm_sev_parameter_enabled(&b"0".to_vec()));
    assert!(!kvm_sev_parameter_enabled(&b"0\n".to_vec()));
    assert!(!kvm_sev_parameter_enabled(&b"".to_vec()));
    assert!(!kvm_sev_parameter_enabled(&b"\n".to_vec()));
    assert!(!kvm_sev_parameter_enabled(&b"11".to_vec()));
    assert!(!kvm_sev_parameter_enabled(&b"1 1".to_vec()));
    assert!(!kvm_sev_parameter_enabled(&b"Y".to_vec()));
    assert!(!kvm_sev_parameter_enabled(&b" 1x".to_vec()));
}
