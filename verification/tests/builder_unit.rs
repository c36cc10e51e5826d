use archive::ArchiveBuilder;

#[test]
fn test_new() {
    let _builder = ArchiveBuilder::new();
}
