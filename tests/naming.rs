use toolcore::naming::NamingEnv;

#[test]
fn unseen_name_has_no_index() {
    let env = NamingEnv::new();
    assert_eq!(env.get_current_index("x"), None);
}

#[test]
fn first_and_second_allocation() {
    let env = NamingEnv::new();
    let x = "x".to_string();
    let (first, env1) = env.create_new_name_index(&x);
    assert_eq!(first, None);
    assert_eq!(env1.get_current_index("x"), None);
    let (second, env2) = env1.create_new_name_index(&x);
    assert_eq!(second, Some(1));
    assert_eq!(env2.get_current_index("x"), Some(1));
    let (third, env3) = env2.create_new_name_index(&x);
    assert_eq!(third, Some(2));
    assert_eq!(env3.get_current_index("x"), Some(2));
}

#[test]
fn branches_are_independent() {
    let env = NamingEnv::new();
    let x = "x".to_string();
    let (r1, e1) = env.create_new_name_index(&x);
    let (r2, e2) = env.create_new_name_index(&x);
    assert_eq!(r1, None);
    assert_eq!(r2, None);
    assert_eq!(env.get_current_index("x"), None);
    let (a, _) = e1.create_new_name_index(&x);
    let (b, _) = e2.create_new_name_index(&x);
    assert_eq!(a, Some(1));
    assert_eq!(b, Some(1));
}

#[test]
fn allocation_leaves_receiver_unchanged() {
    let x = "x".to_string();
    let (_, env1) = NamingEnv::new().create_new_name_index(&x);
    let (_, env2) = env1.create_new_name_index(&x);
    assert_eq!(env1.get_current_index("x"), None);
    assert_eq!(env2.get_current_index("x"), Some(1));
    let (again, _) = env1.create_new_name_index(&x);
    assert_eq!(again, Some(1));
}

#[test]
fn names_are_counted_separately() {
    let x = "x".to_string();
    let y = "y".to_string();
    let (_, env) = NamingEnv::new().create_new_name_index(&x);
    let (_, env) = env.create_new_name_index(&x);
    let (ry, env) = env.create_new_name_index(&y);
    assert_eq!(ry, None);
    assert_eq!(env.get_current_index("x"), Some(1));
    assert_eq!(env.get_current_index("y"), None);
    assert_eq!(env.get_current_index("z"), None);
    let (ry2, env) = env.create_new_name_index(&y);
    assert_eq!(ry2, Some(1));
    assert_eq!(env.get_current_index("y"), Some(1));
}

#[test]
fn counter_grows_along_a_sequence() {
    let names = ["a", "b", "a", "a", "b", "c", "a"];
    let mut env = NamingEnv::new();
    let mut last_a: Option<usize> = None;
    let mut seen_a = false;
    for n in names.iter() {
        let name = n.to_string();
        let (idx, next) = env.create_new_name_index(&name);
        if *n == "a" {
            if seen_a {
                assert!(idx > last_a);
                assert!(idx.is_some());
            }
            seen_a = true;
            last_a = idx;
        }
        env = next;
    }
    assert_eq!(env.get_current_index("a"), Some(3));
    assert_eq!(env.get_current_index("b"), Some(1));
    assert_eq!(env.get_current_index("c"), None);
}

#[test]
fn cloned_environment_allocates_alike() {
    let x = "x".to_string();
    let (_, env) = NamingEnv::new().create_new_name_index(&x);
    let copy = env.clone();
    let (a, _) = env.create_new_name_index(&x);
    let (b, _) = copy.create_new_name_index(&x);
    assert_eq!(a, b);
    assert_eq!(a, Some(1));
}
