use rambt::utils::{
    data_dir_in, database_path_in, get_data_dir, get_database_path, PathError, APP_NAME,
    DATABASE_NAME,
};

#[test]
fn the_database_lies_in_the_directory_of_the_program() {
    let base = std::path::Path::new("home").join("alice").join("share");
    let expected = base.join("rambt").join("ratings.db");
    assert_eq!(
        database_path_in(Some(base.to_str().unwrap().to_string())),
        Ok(expected.to_str().unwrap().to_string())
    );
    assert_eq!(
        data_dir_in(Some(base.to_str().unwrap().to_string())),
        Ok(base.join("rambt").to_str().unwrap().to_string())
    );
}

#[test]
fn the_path_is_longer_than_its_base() {
    let path = database_path_in(Some(String::from("base"))).unwrap();
    assert_ne!(path, "base");
    assert!(path.starts_with("base"));
    assert!(path.ends_with("ratings.db"));
    assert!(path.contains("rambt"));
}

#[test]
fn without_a_data_directory_there_is_no_path() {
    assert_eq!(database_path_in(None), Err(PathError::NoDataDir));
    assert_eq!(data_dir_in(None), Err(PathError::NoDataDir));
    assert_eq!(PathError::NoDataDir.message(), "Couldn't find local data directory");
}

#[test]
fn the_names_are_fixed() {
    assert_eq!(APP_NAME, "rambt");
    assert_eq!(DATABASE_NAME, "ratings.db");
}

#[test]
fn the_path_from_the_environment_ends_in_the_database() {
    match get_database_path() {
        Ok(path) => {
            let path = std::path::PathBuf::from(path);
            assert_eq!(path.file_name().unwrap(), "ratings.db");
            assert_eq!(path.parent().unwrap().file_name().unwrap(), "rambt");
            assert_eq!(Ok(path.parent().unwrap().to_str().unwrap().to_string()), get_data_dir());
        }
        Err(error) => {
            assert_eq!(error, PathError::NoDataDir);
            assert_eq!(get_data_dir(), Err(PathError::NoDataDir));
        }
    }
}
