use infra_cli::ec2::{self, display_name, instance_from_listing, name_tag, EC2Instance, Tag};
use infra_cli::ecs::{self, exec_target, port_forward_target, AwsResource, ECSContainer, Page};
use infra_cli::level::Entry;
use infra_cli::ssm::{port_forward_command, start_session_command};
use infra_cli::text::last_segment;

fn path4(rid: Option<&str>) -> Vec<Entry> {
    vec![
        Entry::new("c1".into(), "arn:c1".into(), None),
        Entry::new("s1".into(), "arn:s1".into(), None),
        Entry::new("t1".into(), "arn:t1".into(), None),
        Entry::new("k1".into(), "k1".into(), rid.map(|r| r.to_string())),
    ]
}

#[test]
fn ecs_pages_walk_and_titles() {
    assert_eq!(Page::Cluster.next(), Page::Services);
    assert_eq!(Page::Container.next(), Page::Container);
    assert_eq!(Page::Cluster.prev(), Page::Cluster);
    assert_eq!(Page::Tasks.prev(), Page::Services);
    assert_eq!(Page::Container.title(), "Containers");
    assert_eq!(Page::at_depth(2), Some(Page::Tasks));
    assert_eq!(Page::at_depth(4), None);
    assert_eq!(ecs::titles(), vec!["Clusters", "Services", "Tasks", "Containers"]);
}

#[test]
fn ec2_page_is_single() {
    assert_eq!(ec2::Page::Instance.next(), ec2::Page::Instance);
    assert_eq!(ec2::Page::Instance.prev(), ec2::Page::Instance);
    assert_eq!(ec2::Page::Instance.title(), "Instances");
    assert_eq!(ec2::titles(), vec!["Instances"]);
}

#[test]
fn arn_short_names() {
    assert_eq!(last_segment("arn:aws:ecs:eu-west-1:1:cluster/prod"), "prod");
    assert_eq!(last_segment("a/b/c"), "c");
    assert_eq!(last_segment("plain"), "plain");
    assert_eq!(last_segment("ends/"), "");
    assert_eq!(last_segment(""), "");
    let r = AwsResource::from_arn("arn:aws:ecs:x:1:service/prod/web".to_string());
    assert_eq!(r.name, "web");
    assert_eq!(r.arn, "arn:aws:ecs:x:1:service/prod/web");
    let e = r.entry();
    assert_eq!(e.name, "web");
    assert_eq!(e.id, "arn:aws:ecs:x:1:service/prod/web");
}

#[test]
fn container_entry_carries_runtime_id() {
    let c = ECSContainer { name: "app".into(), runtime_id: "rt-1".into() };
    let e = c.entry();
    assert_eq!(e.name, "app");
    assert_eq!(e.aux.as_deref(), Some("rt-1"));
}

#[test]
fn ecs_targets_from_path() {
    let t = exec_target(&path4(Some("rt"))).unwrap();
    assert_eq!((t.cluster.as_str(), t.task.as_str(), t.container.as_str()), ("c1", "t1", "k1"));
    assert_eq!(port_forward_target(&path4(Some("rt"))).unwrap(), "ecs:c1_t1_rt");
    assert!(port_forward_target(&path4(None)).is_none());
    assert!(port_forward_target(&path4(Some(""))).is_none());
    let mut short = path4(None);
    short.pop();
    assert!(exec_target(&short).is_none());
    let mut unnamed = path4(None);
    unnamed[3].name = String::new();
    assert!(exec_target(&unnamed).is_none());
}

#[test]
fn ssm_command_lines() {
    assert_eq!(start_session_command("i-1"), "aws ssm start-session --target i-1");
    assert_eq!(
        port_forward_command("i-1", "db", "5432", "15432"),
        "aws ssm start-session --target i-1 --document-name AWS-StartPortForwardingSessionToRemoteHost --parameters '{\"portNumber\":[\"15432\"],\"localPortNumber\":[\"5432\"], \"host\":[\"db\"]}'"
    );
}

#[test]
fn ec2_listing_filters_and_names() {
    let tags = vec![
        Tag { key: Some("env".into()), value: Some("prod".into()) },
        Tag { key: Some("Name".into()), value: Some("web".into()) },
        Tag { key: Some("Name".into()), value: Some("other".into()) },
    ];
    assert_eq!(name_tag(&tags).as_deref(), Some("web"));
    let inst = instance_from_listing(&"running".to_string(), "i-9".into(), &tags).unwrap();
    assert_eq!(inst.name, "web (i-9)");
    assert_eq!(inst.instance_id, "i-9");
    assert!(instance_from_listing(&"stopped".to_string(), "i-9".into(), &tags).is_none());
    assert!(instance_from_listing(&"running".to_string(), "i-9".into(), &vec![]).is_none());
    assert_eq!(display_name("n", "i"), "n (i)");
    let e = EC2Instance { instance_id: "i-1".into(), name: "n".into() }.entry();
    assert_eq!(e.id, "i-1");
}
