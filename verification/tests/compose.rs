use cmps::{compose, create_file, template_contents, template_or_empty};
use cmps::{Candidate, CreateError, CreationMode, Probe, TargetStatus, ALREADY_EXISTS};

#[test]
fn missing_target_without_template_is_created_empty() {
    let candidates = vec![
        Candidate { path: "/project/.cmps/templates/txt".to_string(), probe: Probe::Missing },
        Candidate { path: "/opt/cmps/templates/txt".to_string(), probe: Probe::Missing },
    ];
    let template = template_contents(&candidates);
    assert_eq!(template, None);
    let status = TargetStatus::<String>::Missing;
    let outcome = compose(status, CreationMode::OverwriteEmptyOnly, template);
    assert_eq!(outcome, Ok(Vec::new()));
}

#[test]
fn missing_target_is_filled_with_the_template() {
    for mode in [CreationMode::OverwriteEmptyOnly, CreationMode::Force] {
        let outcome = compose::<String>(TargetStatus::Missing, mode, Some(b"# TODO\n".to_vec()));
        assert_eq!(outcome, Ok(b"# TODO\n".to_vec()));
    }
}

#[test]
fn empty_target_is_taken_over_in_either_mode() {
    for mode in [CreationMode::OverwriteEmptyOnly, CreationMode::Force] {
        let status = TargetStatus::<String>::Present { len: 0 };
        assert_eq!(create_file(status.clone(), mode), Ok(()));
        assert_eq!(compose(status.clone(), mode, Some(b"abc".to_vec())), Ok(b"abc".to_vec()));
        assert_eq!(
            compose(status, mode, None),
            compose(TargetStatus::<String>::Missing, mode, None)
        );
    }
}

#[test]
fn target_with_data_is_refused_without_force() {
    let status = TargetStatus::<String>::Present { len: 3 };
    assert_eq!(
        create_file(status.clone(), CreationMode::OverwriteEmptyOnly),
        Err(CreateError::AlreadyExists)
    );
    assert_eq!(
        compose(status.clone(), CreationMode::OverwriteEmptyOnly, Some(b"abc".to_vec())),
        Err(CreateError::AlreadyExists)
    );
    assert_eq!(
        compose(status, CreationMode::OverwriteEmptyOnly, None),
        Err(CreateError::AlreadyExists)
    );
}

#[test]
fn one_byte_is_data() {
    let status = TargetStatus::<String>::Present { len: 1 };
    assert_eq!(
        create_file(status, CreationMode::OverwriteEmptyOnly),
        Err(CreateError::AlreadyExists)
    );
    let huge = TargetStatus::<String>::Present { len: u64::MAX };
    assert_eq!(
        create_file(huge.clone(), CreationMode::OverwriteEmptyOnly),
        Err(CreateError::AlreadyExists)
    );
    assert_eq!(create_file(huge, CreationMode::Force), Ok(()));
}

#[test]
fn target_with_data_is_rewritten_with_force() {
    let status = TargetStatus::<String>::Present { len: 3 };
    assert_eq!(create_file(status.clone(), CreationMode::Force), Ok(()));
    assert_eq!(
        compose(status.clone(), CreationMode::Force, Some(b"# TODO\n".to_vec())),
        Ok(b"# TODO\n".to_vec())
    );
    assert_eq!(compose(status, CreationMode::Force, None), Ok(Vec::new()));
}

#[test]
fn failed_query_is_handed_on_unchanged() {
    for mode in [CreationMode::OverwriteEmptyOnly, CreationMode::Force] {
        let status = TargetStatus::Unknown("permission denied".to_string());
        assert_eq!(
            create_file(status.clone(), mode),
            Err(CreateError::Io("permission denied".to_string()))
        );
        assert_eq!(
            compose(status, mode, Some(b"abc".to_vec())),
            Err(CreateError::Io("permission denied".to_string()))
        );
    }
}

#[test]
fn failed_query_keeps_an_error_of_any_type() {
    let error = std::io::Error::new(std::io::ErrorKind::PermissionDenied, "no entry");
    match create_file(TargetStatus::Unknown(error), CreationMode::Force) {
        Err(CreateError::Io(error)) => {
            assert_eq!(error.kind(), std::io::ErrorKind::PermissionDenied);
            assert_eq!(error.to_string(), "no entry");
        }
        _ => panic!("the error of the query was not handed on"),
    }
}

#[test]
fn template_or_nothing() {
    assert_eq!(template_or_empty(Some(vec![1, 2, 3])), vec![1, 2, 3]);
    assert_eq!(template_or_empty(Some(Vec::new())), Vec::<u8>::new());
    assert_eq!(template_or_empty(None), Vec::<u8>::new());
}

#[test]
fn modes_compare_by_variant() {
    assert_eq!(CreationMode::Force, CreationMode::Force);
    assert_ne!(CreationMode::Force, CreationMode::OverwriteEmptyOnly);
}

#[test]
fn refusal_tells_how_to_overwrite() {
    assert_eq!(ALREADY_EXISTS, "File already exists! - Use '-f'/'--force' to overwrite anyway.");
}
