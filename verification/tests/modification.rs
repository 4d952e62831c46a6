use taskchampion::modification::{DescriptionMod, ModArg, Modification, Readings, TaskId};
use taskchampion::usage::Usage;
use taskchampion::viewset::ViewSet;

// the instant at which the arguments are read, in seconds since the Unix epoch
const NOW: i64 = 1_600_000_000;
const DAY: i64 = 24 * 60 * 60;

fn tags(names: &[&str]) -> ViewSet<String> {
    let mut set = ViewSet::new();
    for name in names {
        set.insert(name.to_string());
    }
    set
}

#[test]
fn test_empty() {
    let modification = Modification::parse(vec![]);
    assert_eq!(
        modification,
        Modification {
            ..Default::default()
        }
    );
}

#[test]
fn test_single_arg_description() {
    let modification = Modification::parse(vec![ModArg::Description("newdesc".to_string())]);
    assert_eq!(
        modification,
        Modification {
            description: DescriptionMod::Replace("newdesc".to_string()),
            ..Default::default()
        }
    );
}

#[test]
fn test_add_tags() {
    let modification = Modification::parse(vec![
        ModArg::PlusTag("abc".to_string()),
        ModArg::PlusTag("def".to_string()),
    ]);
    assert_eq!(
        modification,
        Modification {
            add_tags: tags(&["abc", "def"]),
            ..Default::default()
        }
    );
    // tags are a set: neither order nor repetition counts
    assert_eq!(
        Modification::parse(vec![
            ModArg::PlusTag("def".to_string()),
            ModArg::PlusTag("abc".to_string()),
            ModArg::PlusTag("def".to_string()),
        ]),
        modification
    );
}

#[test]
fn test_set_wait() {
    let modification = Modification::parse(vec![ModArg::Wait(Some(NOW + 2 * DAY))]);
    assert_eq!(
        modification,
        Modification {
            wait: Some(Some(NOW + 2 * DAY)),
            ..Default::default()
        }
    );
}

#[test]
fn test_add_deps() {
    let modification = Modification::parse(vec![ModArg::AddDependencies(vec![
        TaskId::WorkingSetId(13),
        TaskId::PartialUuid("e72b73d1-9e88".into()),
    ])]);
    let mut deps = ViewSet::new();
    deps.insert(TaskId::WorkingSetId(13));
    deps.insert(TaskId::PartialUuid("e72b73d1-9e88".into()));
    assert_eq!(
        modification,
        Modification {
            add_dependencies: deps,
            ..Default::default()
        }
    );
}

#[test]
fn test_remove_deps() {
    let modification = Modification::parse(vec![ModArg::RemoveDependencies(vec![
        TaskId::WorkingSetId(13),
        TaskId::PartialUuid("e72b73d1-9e88".into()),
    ])]);
    let mut deps = ViewSet::new();
    deps.insert(TaskId::WorkingSetId(13));
    deps.insert(TaskId::PartialUuid("e72b73d1-9e88".into()));
    assert_eq!(
        modification,
        Modification {
            remove_dependencies: deps,
            ..Default::default()
        }
    );
}

#[test]
fn test_unset_wait() {
    let modification = Modification::parse(vec![ModArg::Wait(None)]);
    assert_eq!(
        modification,
        Modification {
            wait: Some(None),
            ..Default::default()
        }
    );
}

#[test]
fn test_multi_arg_description() {
    let modification = Modification::parse(vec![
        ModArg::Description("new".to_string()),
        ModArg::Description("desc".to_string()),
        ModArg::Description("fun".to_string()),
    ]);
    assert_eq!(
        modification,
        Modification {
            description: DescriptionMod::Replace("new desc fun".to_string()),
            ..Default::default()
        }
    );
}

#[test]
fn test_multi_arg_description_and_tags() {
    let modification = Modification::parse(vec![
        ModArg::Description("new".to_string()),
        ModArg::PlusTag("next".to_string()),
        ModArg::Description("desc".to_string()),
        ModArg::MinusTag("daytime".to_string()),
        ModArg::Description("fun".to_string()),
    ]);
    assert_eq!(
        modification,
        Modification {
            description: DescriptionMod::Replace("new desc fun".to_string()),
            add_tags: tags(&["next"]),
            remove_tags: tags(&["daytime"]),
            ..Default::default()
        }
    );
}

#[test]
fn modification_last_wait_stands_and_dependencies_gather() {
    let modification = Modification::parse(vec![
        ModArg::Wait(Some(NOW)),
        ModArg::AddDependencies(vec![TaskId::WorkingSetId(1), TaskId::Uuid(5)]),
        ModArg::Wait(None),
        ModArg::AddDependencies(vec![TaskId::Uuid(5), TaskId::WorkingSetId(2)]),
        ModArg::Wait(Some(NOW + DAY)),
    ]);
    assert_eq!(modification.wait, Some(Some(NOW + DAY)));
    assert_eq!(
        modification.add_dependencies.members(),
        vec![
            TaskId::WorkingSetId(1),
            TaskId::Uuid(5),
            TaskId::WorkingSetId(2)
        ]
    );
    assert_eq!(modification.remove_dependencies, ViewSet::new());
    assert_eq!(modification.description, DescriptionMod::default());
    assert_eq!(modification.description, DescriptionMod::Unchanged);
}

#[test]
fn modification_fold_one_argument() {
    let acc = Modification {
        description: DescriptionMod::Append("more".to_string()),
        ..Default::default()
    };
    let acc = Modification::fold(acc, ModArg::Description("text".to_string()));
    assert_eq!(acc.description, DescriptionMod::Replace("text".to_string()));
    let acc = Modification::fold(acc, ModArg::Description("".to_string()));
    assert_eq!(acc.description, DescriptionMod::Replace("text ".to_string()));
}

#[test]
fn view_set_members() {
    let mut set: ViewSet<String> = ViewSet::new();
    assert!(set.insert("b".to_string()));
    assert!(set.insert("a".to_string()));
    assert!(!set.insert("b".to_string()));
    assert!(set.contains(&"a".to_string()));
    assert!(!set.contains(&"c".to_string()));
    assert_eq!(set.members(), vec!["b".to_string(), "a".to_string()]);
    assert_eq!(set.clone(), set);
    assert_ne!(set, tags(&["a"]));
    assert_ne!(tags(&["a"]), set);
    assert_eq!(set, tags(&["a", "b"]));
}

#[test]
fn modification_usage() {
    let mut usage = Usage::new();
    Modification::get_usage(&mut usage);
    let syntax: Vec<&str> = usage.modifications.iter().map(|m| m.syntax).collect();
    assert_eq!(
        syntax,
        vec![
            "DESCRIPTION",
            "+TAG",
            "-TAG",
            "status:{pending,completed,deleted}",
            "wait:<timestamp>",
            "depends:<task-list>",
            "depends:-<task-list>",
        ]
    );
    assert_eq!(usage.modifications[1].summary, "Tag task");
    assert_eq!(
        usage.modifications[2].description,
        "Remove the given tag from the task."
    );
    Modification::get_usage(&mut usage);
    assert_eq!(usage.modifications.len(), 14);
    assert_eq!(usage.modifications[7], usage.modifications[0]);
}

#[test]
fn modification_first_reading_decides() {
    let none = Readings {
        plus_tag: None,
        minus_tag: None,
        wait: None,
        dependencies: None,
    };
    assert_eq!(
        Modification::mod_arg("newdesc".to_string(), none.clone()),
        ModArg::Description("newdesc".to_string())
    );
    assert_eq!(
        Modification::mod_arg(
            "+abc".to_string(),
            Readings {
                plus_tag: Some("abc".to_string()),
                ..none.clone()
            }
        ),
        ModArg::PlusTag("abc".to_string())
    );
    assert_eq!(
        Modification::mod_arg(
            "-abc".to_string(),
            Readings {
                minus_tag: Some("abc".to_string()),
                wait: Some(None),
                ..none.clone()
            }
        ),
        ModArg::MinusTag("abc".to_string())
    );
    assert_eq!(
        Modification::mod_arg(
            "wait:".to_string(),
            Readings {
                wait: Some(None),
                dependencies: Some((true, vec![])),
                ..none.clone()
            }
        ),
        ModArg::Wait(None)
    );
    assert_eq!(
        Modification::mod_arg(
            "depends:13".to_string(),
            Readings {
                dependencies: Some((true, vec![TaskId::WorkingSetId(13)])),
                ..none.clone()
            }
        ),
        ModArg::AddDependencies(vec![TaskId::WorkingSetId(13)])
    );
    assert_eq!(
        Modification::mod_arg(
            "depends:-13".to_string(),
            Readings {
                dependencies: Some((false, vec![TaskId::WorkingSetId(13)])),
                ..none
            }
        ),
        ModArg::RemoveDependencies(vec![TaskId::WorkingSetId(13)])
    );
    assert_eq!(
        Modification::dependencies((false, vec![TaskId::Uuid(1)])),
        ModArg::RemoveDependencies(vec![TaskId::Uuid(1)])
    );
    assert_eq!(Modification::wait(Some(NOW)), ModArg::Wait(Some(NOW)));
}
