use locale_settings::{
    locale_from_query, set_locale, set_locale_all, set_locale_from_env, Action, Category, Event,
    Locale, LocaleError, SwapSession,
};
use std::collections::HashMap;

const ALL: [Category; 6] = [
    Category::CharacterTypes,
    Category::Currency,
    Category::Message,
    Category::Numeric,
    Category::StringCollation,
    Category::Time,
];

/// A stand-in for the OS's extended locale API on one thread: contexts
/// are six names indexed by category identifier, and installing a context
/// copies it into a new one owned by the thread.
struct SimOs {
    known: Vec<String>,
    env_name: String,
    contexts: HashMap<u64, Vec<String>>,
    active: u64,
    thread: Vec<String>,
    next: u64,
    released: Vec<u64>,
    fail_install: bool,
}

impl SimOs {
    fn new() -> SimOs {
        let mut contexts = HashMap::new();
        contexts.insert(1, vec!["C".to_string(); 6]);
        SimOs {
            known: vec!["C".to_string(), "POSIX".to_string(), "en_US.UTF-8".to_string()],
            env_name: "en_US.UTF-8".to_string(),
            contexts,
            active: 1,
            thread: vec!["C".to_string(); 6],
            next: 2,
            released: Vec::new(),
            fail_install: false,
        }
    }

    fn construct(&mut self, mask: u32, name: &str, base: u64) -> u64 {
        let resolved = if name.is_empty() { self.env_name.clone() } else { name.to_string() };
        if !self.known.contains(&resolved) {
            return 0;
        }
        let mut names = self.contexts[&base].clone();
        for code in 0..6u32 {
            if mask & (1 << code) != 0 {
                names[code as usize] = resolved.clone();
            }
        }
        let h = self.next;
        self.next += 1;
        self.contexts.insert(h, names);
        h
    }

    fn install(&mut self, h: u64) -> u64 {
        if self.fail_install {
            return 0;
        }
        // Installation copies the new context into a thread-owned one.
        let previous = self.active;
        let names = self.contexts[&h].clone();
        let copy = self.next;
        self.next += 1;
        self.contexts.insert(copy, names.clone());
        self.thread = names;
        self.active = copy;
        previous
    }

    fn release(&mut self, h: u64) {
        assert!(!self.released.contains(&h), "handle released twice");
        self.released.push(h);
    }

    fn run(&mut self, mut session: SwapSession) -> bool {
        let mut event = Event::Start;
        loop {
            assert!(session.accepts(&event));
            match session.step(event) {
                Action::QueryCurrent => event = Event::Current { handle: self.active },
                Action::Construct { mask, name, base } => {
                    event = Event::Constructed { handle: self.construct(mask, &name, base) }
                }
                Action::Install { handle } => {
                    event = Event::Installed { previous: self.install(handle) }
                }
                Action::Release { handle } => {
                    self.release(handle);
                    event = Event::Released
                }
                Action::Finish { switched } => {
                    assert!(session.is_done());
                    return switched;
                }
            }
        }
    }

    fn get_locale(&self, c: &Category) -> Result<Locale, LocaleError> {
        let mask = c.to_os_mask();
        let code = (0..6u32).find(|code| (1 << code) == mask).unwrap();
        let name = self.thread[code as usize].clone();
        locale_from_query(if name.is_empty() { None } else { Some(name) })
    }
}

fn en_us() -> Locale {
    Locale::Named("en_US.UTF-8".to_string())
}

#[test]
fn test_get_locale() {
    let mut os = SimOs::new();
    os.run(set_locale_all(&Locale::Posix));
    for category in ALL.iter() {
        let result = os.get_locale(category);
        assert!(result.is_ok());
        assert_eq!(result.unwrap(), Locale::Posix);
    }
}

#[test]
fn test_set_locale_all() {
    let mut os = SimOs::new();
    os.run(set_locale_all(&Locale::Posix));
    for category in ALL.iter() {
        let result = os.get_locale(category);
        assert!(result.is_ok());
        assert_eq!(result.unwrap(), Locale::Posix);
    }
}

#[test]
fn test_set_locale_one() {
    let mut os = SimOs::new();
    os.run(set_locale_all(&Locale::Posix));

    let locale = en_us();
    let result = os.run(set_locale(&locale, &Category::Currency));
    assert_eq!(result, true);

    let new_setting = os.get_locale(&Category::Currency);
    assert_eq!(new_setting.unwrap(), locale);

    for category in ALL.iter().filter(|c| **c != Category::Currency) {
        let result = os.get_locale(category);
        assert!(result.is_ok());
        assert_eq!(result.unwrap(), Locale::Posix);
    }
}

#[test]
fn round_trip_every_category() {
    for c in ALL.iter() {
        let mut os = SimOs::new();
        assert!(os.run(set_locale(&en_us(), c)));
        assert_eq!(os.get_locale(c), Ok(en_us()));
    }
}

#[test]
fn bulk_switch_reaches_every_category() {
    let mut os = SimOs::new();
    assert!(os.run(set_locale_all(&en_us())));
    for c in ALL.iter() {
        assert_eq!(os.get_locale(c), Ok(en_us()));
    }
}

#[test]
fn switching_one_category_keeps_the_others() {
    let mut os = SimOs::new();
    assert!(os.run(set_locale_all(&en_us())));
    assert!(os.run(set_locale(&Locale::Posix, &Category::Time)));
    assert_eq!(os.get_locale(&Category::Time), Ok(Locale::Posix));
    for c in ALL.iter().filter(|c| **c != Category::Time) {
        assert_eq!(os.get_locale(c), Ok(en_us()));
    }
}

#[test]
fn switching_twice_is_idempotent() {
    let mut os = SimOs::new();
    assert!(os.run(set_locale(&en_us(), &Category::Numeric)));
    let once = os.thread.clone();
    assert!(os.run(set_locale(&en_us(), &Category::Numeric)));
    assert_eq!(os.thread, once);
    assert_eq!(os.get_locale(&Category::Numeric), Ok(en_us()));
}

#[test]
fn environment_locale_is_taken_when_supported() {
    let mut os = SimOs::new();
    assert!(os.run(set_locale_from_env(&Category::Message)));
    assert_eq!(os.get_locale(&Category::Message), Ok(en_us()));
    assert_eq!(os.get_locale(&Category::Currency), Ok(Locale::Posix));
}

#[test]
fn environment_locale_is_refused_when_unsupported() {
    let mut os = SimOs::new();
    os.env_name = "xx_YY.UTF-8".to_string();
    let before = os.thread.clone();
    assert!(!os.run(set_locale_from_env(&Category::Message)));
    assert_eq!(os.thread, before);
    assert!(os.released.is_empty());
}

#[test]
fn env_session_asks_for_the_empty_name() {
    let mut s = set_locale_from_env(&Category::Time);
    assert_eq!(s.step(Event::Start), Action::QueryCurrent);
    assert_eq!(
        s.step(Event::Current { handle: 5 }),
        Action::Construct { mask: 4, name: String::new(), base: 5 }
    );
}

#[test]
fn successful_switch_releases_previous_and_new_once() {
    let mut s = set_locale(&en_us(), &Category::Currency);
    assert_eq!(s.step(Event::Start), Action::QueryCurrent);
    assert_eq!(
        s.step(Event::Current { handle: 7 }),
        Action::Construct { mask: 16, name: "en_US.UTF-8".to_string(), base: 7 }
    );
    assert_eq!(s.step(Event::Constructed { handle: 9 }), Action::Install { handle: 9 });
    assert_eq!(s.step(Event::Installed { previous: 7 }), Action::Release { handle: 7 });
    assert_eq!(s.step(Event::Released), Action::Release { handle: 9 });
    assert_eq!(s.step(Event::Released), Action::Finish { switched: true });
    assert!(s.is_done());
    assert!(!s.accepts(&Event::Released));
}

#[test]
fn failed_construction_releases_nothing() {
    let mut s = set_locale_all(&Locale::Named("xx".to_string()));
    assert_eq!(s.step(Event::Start), Action::QueryCurrent);
    assert_eq!(
        s.step(Event::Current { handle: 3 }),
        Action::Construct { mask: 0x1fbf, name: "xx".to_string(), base: 3 }
    );
    assert_eq!(s.step(Event::Constructed { handle: 0 }), Action::Finish { switched: false });
    assert!(s.is_done());
}

#[test]
fn failed_installation_releases_the_new_context() {
    let mut s = set_locale(&Locale::Posix, &Category::Numeric);
    s.step(Event::Start);
    s.step(Event::Current { handle: 3 });
    assert_eq!(s.step(Event::Constructed { handle: 4 }), Action::Install { handle: 4 });
    assert_eq!(s.step(Event::Installed { previous: 0 }), Action::Release { handle: 4 });
    assert_eq!(s.step(Event::Released), Action::Finish { switched: false });
}

#[test]
fn failed_installation_keeps_context() {
    let mut os = SimOs::new();
    os.fail_install = true;
    let before = os.thread.clone();
    assert!(!os.run(set_locale(&en_us(), &Category::Currency)));
    assert_eq!(os.thread, before);
    assert_eq!(os.released, vec![2]);
}

#[test]
fn sessions_accept_only_the_expected_event() {
    let mut s = set_locale(&Locale::Posix, &Category::Time);
    assert!(s.accepts(&Event::Start));
    assert!(!s.accepts(&Event::Released));
    s.step(Event::Start);
    assert!(s.accepts(&Event::Current { handle: 1 }));
    assert!(!s.accepts(&Event::Constructed { handle: 1 }));
}

#[test]
fn category_codes() {
    assert_eq!(Category::CharacterTypes.to_os_code(), 0);
    assert_eq!(Category::Numeric.to_os_code(), 1);
    assert_eq!(Category::Time.to_os_code(), 2);
    assert_eq!(Category::StringCollation.to_os_code(), 3);
    assert_eq!(Category::Currency.to_os_code(), 4);
    assert_eq!(Category::Message.to_os_code(), 5);
    assert_eq!(Category::all_code(), 6);
}

#[test]
fn category_masks() {
    for c in ALL.iter() {
        assert_eq!(c.to_os_mask(), 1 << c.to_os_code());
        assert_eq!(c.to_os_mask() & Category::all_mask(), c.to_os_mask());
    }
    assert_eq!(Category::Currency.to_os_mask(), 16);
    assert_eq!(Category::all_mask(), 0x1fbf);
}

#[test]
fn query_without_a_name_is_unsupported() {
    assert_eq!(locale_from_query(None), Err(LocaleError::Unsupported));
    assert_eq!(locale_from_query(Some(String::new())), Err(LocaleError::Unsupported));
}

#[test]
fn query_names_are_parsed() {
    assert_eq!(locale_from_query(Some("C".to_string())), Ok(Locale::Posix));
    assert_eq!(locale_from_query(Some("POSIX".to_string())), Ok(Locale::Posix));
    assert_eq!(
        locale_from_query(Some("/usr/share/locale/fr_FR".to_string())),
        Ok(Locale::Path("/usr/share/locale/fr_FR".to_string()))
    );
    assert_eq!(locale_from_query(Some("en_US.UTF-8".to_string())), Ok(en_us()));
}

#[test]
fn canonical_names() {
    assert_eq!(Locale::Posix.to_name(), "POSIX");
    assert_eq!(en_us().to_name(), "en_US.UTF-8");
    assert_eq!(Locale::Path("/l/x".to_string()).to_name(), "/l/x");
    assert_eq!(Locale::from_name(en_us().to_name()), en_us());
}

#[test]
fn validity() {
    assert!(Locale::Posix.is_valid());
    assert!(en_us().is_valid());
    assert!(Locale::Path("/l/x".to_string()).is_valid());
    assert!(!Locale::Path("l/x".to_string()).is_valid());
    assert!(!Locale::Named(String::new()).is_valid());
    assert!(!Locale::Named("C".to_string()).is_valid());
    assert!(!Locale::Named("POSIX".to_string()).is_valid());
    assert!(!Locale::Named("/x".to_string()).is_valid());
}
