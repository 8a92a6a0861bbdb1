//! The procedural crowd: position bounds, appearance sampling and the
//! monochrome exclusions, with the real thread-local generator.

use monster::PersonType;
use monster::rand_person;
use monster::sample_audience;
use monster::sample_jury;

fn colored_only(p: PersonType) -> bool {
    matches!(
        p,
        PersonType::Person4
            | PersonType::Person5
            | PersonType::Person9
            | PersonType::Person10
            | PersonType::Person11
            | PersonType::Person13
            | PersonType::Person15
    )
}

#[test]
fn jury_positions_stay_in_the_box() {
    let mut rng = rand::thread_rng();
    for _ in 0..20 {
        let jury = sample_jury(&mut rng);
        assert_eq!(jury.len(), 12);
        for a in &jury {
            assert!(48 <= a.x && a.x <= 156);
            assert!(48 <= a.y && a.y <= 96);
            assert!(!colored_only(a.kind));
        }
    }
}

#[test]
fn audience_positions_stay_in_the_box() {
    let mut rng = rand::thread_rng();
    for _ in 0..5 {
        let audience = sample_audience(&mut rng);
        assert_eq!(audience.len(), 100);
        for a in &audience {
            assert!(48 <= a.x && a.x <= 550);
            assert!(260 <= a.y && a.y <= 540);
        }
    }
}

#[test]
fn monochrome_sampling_never_shows_colored_only_variants() {
    let mut rng = rand::thread_rng();
    for _ in 0..500 {
        let p = rand_person(&mut rng, false);
        assert!(!colored_only(p));
        assert!(!matches!(p, PersonType::Gnome(_)));
    }
}

#[test]
fn colored_sampling_shows_only_human_variants() {
    let mut rng = rand::thread_rng();
    let mut seen_colored_only = false;
    for _ in 0..2000 {
        let p = rand_person(&mut rng, true);
        assert!(!matches!(
            p,
            PersonType::Gnome(_)
                | PersonType::CatKid(_)
                | PersonType::Chick(_)
                | PersonType::DuckBoy(_)
                | PersonType::Fox
        ));
        if colored_only(p) {
            seen_colored_only = true;
        }
    }
    // With 2000 draws over 15 variants, the colored-only column shows up.
    assert!(seen_colored_only);
}
