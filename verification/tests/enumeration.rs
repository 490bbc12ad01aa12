use sysdir::sysdir_search_path_directory_t::{
    self, SYSDIR_DIRECTORY_DEMO_APPLICATION, SYSDIR_DIRECTORY_DESKTOP, SYSDIR_DIRECTORY_LIBRARY,
    SYSDIR_DIRECTORY_USER,
};
use sysdir::{
    sysdir_get_next_search_path_enumeration, sysdir_search_path_domain_mask_t,
    sysdir_start_search_path_enumeration, Platform, PlatformCall, SearchPathEnumeration,
    SysdirError, PATH_MAX, SYSDIR_DOMAIN_MASK_ALL, SYSDIR_DOMAIN_MASK_LOCAL,
    SYSDIR_DOMAIN_MASK_NETWORK, SYSDIR_DOMAIN_MASK_SYSTEM, SYSDIR_DOMAIN_MASK_USER,
};

// A stand-in for the platform's enumerator. Its state holds the directory
// code above the domain bits that are still to be searched; it takes the
// domains from the lowest bit up and skips those that have no such directory.

fn stand_in_path(dir: u32, domain: u32) -> Option<&'static [u8]> {
    match (dir, domain) {
        (5, 1) => Some(b"~/Library"),
        (5, 2) => Some(b"/Library"),
        (5, 4) => Some(b"/Network/Library"),
        (5, 8) => Some(b"/System/Library"),
        (7, 2) => Some(b"/Users"),
        (7, 4) => Some(b"/Network/Users"),
        (12, 1) => Some(b"~/Desktop"),
        _ => None,
    }
}

fn stand_in_start(dir: u32, domain_mask: u32) -> u32 {
    (dir << 16) | (domain_mask & 0xf)
}

fn stand_in_next(state: u32, buffer: &mut [u8]) -> u32 {
    let dir = state >> 16;
    let mut remaining = state & 0xf;
    while remaining != 0 {
        let domain = 1 << remaining.trailing_zeros();
        remaining &= !domain;
        if let Some(path) = stand_in_path(dir, domain) {
            buffer[..path.len()].copy_from_slice(path);
            buffer[path.len()] = 0;
            return (dir << 16) | remaining;
        }
    }
    0
}

fn step(
    state: &mut SearchPathEnumeration,
    buffer: &mut [u8],
) -> Result<Option<Vec<u8>>, SysdirError> {
    let raw = match state.platform_call(buffer.len())? {
        PlatformCall::Start { dir, domain_mask } => stand_in_start(dir, domain_mask),
        PlatformCall::Resume { state } => state,
    };
    let next = stand_in_next(raw, buffer);
    sysdir_get_next_search_path_enumeration(state, next, buffer)
}

fn enumerate(
    dir: sysdir_search_path_directory_t,
    domain_mask: sysdir_search_path_domain_mask_t,
    buffer: &mut [u8],
) -> Result<Vec<Vec<u8>>, SysdirError> {
    let mut state = sysdir_start_search_path_enumeration(Platform::MacOs, dir, domain_mask)?;
    let mut paths = Vec::new();
    while let Some(path) = step(&mut state, buffer)? {
        paths.push(path);
    }
    assert!(state.is_done());
    Ok(paths)
}

fn fresh_buffer() -> Vec<u8> {
    vec![0xAA; PATH_MAX as usize]
}

fn terminated(text: &[u8], capacity: usize, filler: u8) -> Vec<u8> {
    let mut buffer = vec![filler; capacity];
    buffer[..text.len()].copy_from_slice(text);
    buffer[text.len()] = 0;
    buffer
}

fn start(
    dir: sysdir_search_path_directory_t,
    domain_mask: sysdir_search_path_domain_mask_t,
) -> SearchPathEnumeration {
    sysdir_start_search_path_enumeration(Platform::MacOs, dir, domain_mask).unwrap()
}

#[test]
fn example_and_linkage() {
    let mut count = 0_usize;
    let mut path = [0; PATH_MAX as usize];

    let dir = sysdir_search_path_directory_t::SYSDIR_DIRECTORY_USER;
    let domain_mask = SYSDIR_DOMAIN_MASK_LOCAL;

    let mut state =
        sysdir_start_search_path_enumeration(Platform::MacOs, dir, domain_mask).unwrap();
    loop {
        let raw = match state.platform_call(path.len()).unwrap() {
            PlatformCall::Start { dir, domain_mask } => stand_in_start(dir, domain_mask),
            PlatformCall::Resume { state } => state,
        };
        let next = stand_in_next(raw, &mut path);
        let yielded = sysdir_get_next_search_path_enumeration(&mut state, next, &path).unwrap();
        if state.is_done() {
            break;
        }
        let path = yielded.unwrap();
        let s = std::str::from_utf8(&path).unwrap();
        assert_eq!(s, "/Users");
        count += 1;
    }

    assert_eq!(count, 1, "Should iterate once and find `/Users`");
}

#[test]
fn users_in_the_local_domain_is_one_path() {
    let paths = enumerate(SYSDIR_DIRECTORY_USER, SYSDIR_DOMAIN_MASK_LOCAL, &mut fresh_buffer());
    assert_eq!(paths, Ok(vec![b"/Users".to_vec()]));
}

#[test]
fn demo_applications_in_the_user_domain_end_at_once() {
    let mut state = start(SYSDIR_DIRECTORY_DEMO_APPLICATION, SYSDIR_DOMAIN_MASK_USER);
    assert!(!state.is_done());
    let first = step(&mut state, &mut fresh_buffer());
    assert_eq!(first, Ok(None));
    assert!(state.is_done());

    let paths = enumerate(
        SYSDIR_DIRECTORY_DEMO_APPLICATION,
        SYSDIR_DOMAIN_MASK_USER,
        &mut fresh_buffer(),
    );
    assert_eq!(paths, Ok(Vec::new()));
}

#[test]
fn a_mask_of_two_domains_yields_what_each_domain_yields() {
    let mut buffer = fresh_buffer();
    let user = enumerate(SYSDIR_DIRECTORY_LIBRARY, SYSDIR_DOMAIN_MASK_USER, &mut buffer).unwrap();
    let local = enumerate(SYSDIR_DIRECTORY_LIBRARY, SYSDIR_DOMAIN_MASK_LOCAL, &mut buffer).unwrap();
    let both = enumerate(
        SYSDIR_DIRECTORY_LIBRARY,
        SYSDIR_DOMAIN_MASK_USER | SYSDIR_DOMAIN_MASK_LOCAL,
        &mut buffer,
    )
    .unwrap();

    assert_eq!(user, vec![b"~/Library".to_vec()]);
    assert_eq!(local, vec![b"/Library".to_vec()]);
    assert_eq!(both.len(), 2);
    for path in user.iter().chain(local.iter()) {
        assert!(both.contains(path));
    }
    for path in &both {
        assert!(user.contains(path) || local.contains(path));
    }
}

#[test]
fn a_buffer_below_path_max_is_a_precondition_violation() {
    let mut state = start(SYSDIR_DIRECTORY_USER, SYSDIR_DOMAIN_MASK_LOCAL);
    assert_eq!(
        state.platform_call(PATH_MAX as usize - 1),
        Err(SysdirError::PreconditionViolation)
    );
    assert_eq!(state.platform_call(0), Err(SysdirError::PreconditionViolation));

    let small = terminated(b"/Users", PATH_MAX as usize - 1, 0);
    assert_eq!(
        sysdir_get_next_search_path_enumeration(&mut state, 7 << 16, &small),
        Err(SysdirError::PreconditionViolation)
    );
    assert_eq!(
        sysdir_get_next_search_path_enumeration(&mut state, 0, &small),
        Err(SysdirError::PreconditionViolation)
    );
    assert_eq!(
        enumerate(SYSDIR_DIRECTORY_USER, SYSDIR_DOMAIN_MASK_LOCAL, &mut [0; 1023]),
        Err(SysdirError::PreconditionViolation)
    );
}

#[test]
fn a_refused_step_can_be_taken_again() {
    let mut state = start(SYSDIR_DIRECTORY_USER, SYSDIR_DOMAIN_MASK_LOCAL);
    let mut small = vec![0u8; 16];
    assert_eq!(step(&mut state, &mut small), Err(SysdirError::PreconditionViolation));
    assert!(!state.is_done());
    assert_eq!(
        state.platform_call(PATH_MAX as usize),
        Ok(PlatformCall::Start { dir: 7, domain_mask: 2 })
    );

    let mut buffer = fresh_buffer();
    assert_eq!(step(&mut state, &mut buffer), Ok(Some(b"/Users".to_vec())));
    assert_eq!(step(&mut state, &mut buffer), Ok(None));
}

#[test]
fn exactly_path_max_bytes_are_enough() {
    let state = start(SYSDIR_DIRECTORY_LIBRARY, SYSDIR_DOMAIN_MASK_ALL);
    assert_eq!(
        state.platform_call(1024),
        Ok(PlatformCall::Start { dir: 5, domain_mask: 0xffff })
    );
    assert_eq!(
        state.platform_call(usize::MAX),
        Ok(PlatformCall::Start { dir: 5, domain_mask: 0xffff })
    );
}

#[test]
fn starting_is_refused_where_the_platform_lacks_the_facility() {
    let refused = sysdir_start_search_path_enumeration(
        Platform::Other,
        SYSDIR_DIRECTORY_USER,
        SYSDIR_DOMAIN_MASK_LOCAL,
    );
    assert!(matches!(refused, Err(SysdirError::UnsupportedPlatform)));
}

#[test]
fn starting_succeeds_on_every_apple_platform() {
    for platform in [Platform::MacOs, Platform::Ios, Platform::TvOs, Platform::WatchOs] {
        let state = sysdir_start_search_path_enumeration(
            platform,
            SYSDIR_DIRECTORY_DESKTOP,
            SYSDIR_DOMAIN_MASK_USER | SYSDIR_DOMAIN_MASK_SYSTEM,
        )
        .unwrap();
        assert!(!state.is_done());
        assert_eq!(state.directory(), SYSDIR_DIRECTORY_DESKTOP);
        assert_eq!(state.domain_mask(), 9);
    }
}

#[test]
fn a_fresh_enumeration_asks_for_the_start_call() {
    let state = start(SYSDIR_DIRECTORY_USER, SYSDIR_DOMAIN_MASK_LOCAL);
    assert_eq!(
        state.platform_call(PATH_MAX as usize),
        Ok(PlatformCall::Start { dir: 7, domain_mask: 2 })
    );
}

#[test]
fn an_advanced_enumeration_asks_to_resume_from_the_last_state() {
    let mut state = start(SYSDIR_DIRECTORY_USER, SYSDIR_DOMAIN_MASK_LOCAL);
    let buffer = terminated(b"/Users", PATH_MAX as usize, 0);
    let yielded = sysdir_get_next_search_path_enumeration(&mut state, 0xdead_beef, &buffer);
    assert_eq!(yielded, Ok(Some(b"/Users".to_vec())));
    assert!(!state.is_done());
    assert_eq!(
        state.platform_call(PATH_MAX as usize),
        Ok(PlatformCall::Resume { state: 0xdead_beef })
    );
    assert_eq!(state.directory(), SYSDIR_DIRECTORY_USER);
    assert_eq!(state.domain_mask(), SYSDIR_DOMAIN_MASK_LOCAL);
}

#[test]
fn the_sentinel_ends_the_enumeration_without_reading_the_buffer() {
    let mut state = start(SYSDIR_DIRECTORY_LIBRARY, SYSDIR_DOMAIN_MASK_NETWORK);
    let unterminated = vec![b'x'; PATH_MAX as usize];
    assert_eq!(sysdir_get_next_search_path_enumeration(&mut state, 0, &unterminated), Ok(None));
    assert!(state.is_done());
}

#[test]
fn a_finished_enumeration_refuses_every_further_step() {
    let mut state = start(SYSDIR_DIRECTORY_USER, SYSDIR_DOMAIN_MASK_LOCAL);
    let mut buffer = fresh_buffer();
    assert_eq!(step(&mut state, &mut buffer), Ok(Some(b"/Users".to_vec())));
    assert_eq!(step(&mut state, &mut buffer), Ok(None));
    assert!(state.is_done());

    assert_eq!(state.platform_call(PATH_MAX as usize), Err(SysdirError::PreconditionViolation));
    let good = terminated(b"/Users", PATH_MAX as usize, 0);
    assert_eq!(
        sysdir_get_next_search_path_enumeration(&mut state, 7 << 16, &good),
        Err(SysdirError::PreconditionViolation)
    );
    assert_eq!(
        sysdir_get_next_search_path_enumeration(&mut state, 0, &good),
        Err(SysdirError::PreconditionViolation)
    );
    assert!(state.is_done());
}

#[test]
fn a_buffer_without_terminator_is_a_precondition_violation() {
    let mut state = start(SYSDIR_DIRECTORY_USER, SYSDIR_DOMAIN_MASK_LOCAL);
    let unterminated = vec![b'/'; PATH_MAX as usize];
    assert_eq!(
        sysdir_get_next_search_path_enumeration(&mut state, 7 << 16, &unterminated),
        Err(SysdirError::PreconditionViolation)
    );
    assert_eq!(
        state.platform_call(PATH_MAX as usize),
        Ok(PlatformCall::Start { dir: 7, domain_mask: 2 })
    );

    let mut late = vec![b'/'; 2 * PATH_MAX as usize];
    late[PATH_MAX as usize] = 0;
    assert_eq!(
        sysdir_get_next_search_path_enumeration(&mut state, 7 << 16, &late),
        Err(SysdirError::PreconditionViolation)
    );
}

#[test]
fn a_mask_without_domains_finds_nothing() {
    for dir in [SYSDIR_DIRECTORY_USER, SYSDIR_DIRECTORY_LIBRARY, SYSDIR_DIRECTORY_DESKTOP] {
        assert_eq!(enumerate(dir, 0, &mut fresh_buffer()), Ok(Vec::new()));
        assert_eq!(enumerate(dir, 0xfff0, &mut fresh_buffer()), Ok(Vec::new()));
    }
}

#[test]
fn every_domain_of_a_kind_is_yielded_in_the_platforms_order() {
    let paths =
        enumerate(SYSDIR_DIRECTORY_LIBRARY, SYSDIR_DOMAIN_MASK_ALL, &mut fresh_buffer()).unwrap();
    assert_eq!(
        paths,
        vec![
            b"~/Library".to_vec(),
            b"/Library".to_vec(),
            b"/Network/Library".to_vec(),
            b"/System/Library".to_vec(),
        ]
    );
}

#[test]
fn equal_starts_yield_equal_paths() {
    let mask = SYSDIR_DOMAIN_MASK_LOCAL | SYSDIR_DOMAIN_MASK_NETWORK | SYSDIR_DOMAIN_MASK_SYSTEM;
    let mut clean = vec![0u8; PATH_MAX as usize];
    let mut stale = vec![b'#'; 4 * PATH_MAX as usize];
    let first = enumerate(SYSDIR_DIRECTORY_USER, mask, &mut clean);
    let second = enumerate(SYSDIR_DIRECTORY_USER, mask, &mut stale);
    assert_eq!(first, Ok(vec![b"/Users".to_vec(), b"/Network/Users".to_vec()]));
    assert_eq!(first, second);
}

#[test]
fn a_shorter_path_is_not_mixed_with_the_one_before() {
    let mut state = start(SYSDIR_DIRECTORY_LIBRARY, SYSDIR_DOMAIN_MASK_ALL);
    let mut buffer = fresh_buffer();
    let long = terminated(b"/Network/Library", PATH_MAX as usize, 0xAA);
    buffer.copy_from_slice(&long);
    assert_eq!(
        sysdir_get_next_search_path_enumeration(&mut state, 1, &buffer),
        Ok(Some(b"/Network/Library".to_vec()))
    );
    buffer[..9].copy_from_slice(b"/Library\0");
    assert_eq!(
        sysdir_get_next_search_path_enumeration(&mut state, 2, &buffer),
        Ok(Some(b"/Library".to_vec()))
    );
}

#[test]
fn yielded_paths_fit_path_max_with_their_terminator() {
    let mut state = start(SYSDIR_DIRECTORY_LIBRARY, SYSDIR_DOMAIN_MASK_USER);
    let longest = vec![b'p'; PATH_MAX as usize - 1];
    let buffer = terminated(&longest, 2 * PATH_MAX as usize, b'q');
    let yielded = sysdir_get_next_search_path_enumeration(&mut state, 1, &buffer).unwrap();
    let path = yielded.unwrap();
    assert_eq!(path.len() + 1, PATH_MAX as usize);
    assert_eq!(path, longest);
    assert!(!path.contains(&0));

    for dir in [SYSDIR_DIRECTORY_USER, SYSDIR_DIRECTORY_LIBRARY, SYSDIR_DIRECTORY_DESKTOP] {
        for path in enumerate(dir, SYSDIR_DOMAIN_MASK_ALL, &mut fresh_buffer()).unwrap() {
            assert!(path.len() < PATH_MAX as usize);
            assert!(!path.contains(&0));
        }
    }
}

#[test]
fn every_enumeration_ends_within_its_domains() {
    for dir in [SYSDIR_DIRECTORY_USER, SYSDIR_DIRECTORY_LIBRARY, SYSDIR_DIRECTORY_DESKTOP] {
        for mask in 0..16 {
            let mut state = start(dir, mask);
            let mut buffer = fresh_buffer();
            let mut steps = 0;
            while step(&mut state, &mut buffer).unwrap().is_some() {
                steps += 1;
                assert!(steps <= 4);
            }
            assert!(state.is_done());
            assert_eq!(steps, enumerate(dir, mask, &mut buffer).unwrap().len());
        }
    }
}
