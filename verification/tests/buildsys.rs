use grindd_core::buildsys::{
    copy_key, default_cache_path, execute_build, instruction_key, parse_build_file, BuildCache,
    BuildInstruction, BuildPlan,
};
use grindd_core::digest::content_digest;
use grindd_core::error::GrinddError;

fn plan_of(text: &str) -> BuildPlan {
    match parse_build_file(text) {
        Ok(p) => p,
        Err(e) => panic!("unexpected error: {:?}", e),
    }
}

fn build_error(text: &str) -> String {
    match parse_build_file(text) {
        Err(GrinddError::Build(m)) => m,
        other => panic!("expected a build error, got {:?}", other.map(|p| p.instructions.len())),
    }
}

#[test]
fn parses_all_instruction_kinds() {
    let plan = plan_of("FROM alpine\nRUN apk add curl\nCOPY app.sh /bin/app.sh\nCMD /bin/app.sh --port 80\n");
    assert_eq!(plan.instructions.len(), 4);
    match &plan.instructions[0] {
        BuildInstruction::From(x) => assert_eq!(x, "alpine"),
        other => panic!("{:?}", other),
    }
    match &plan.instructions[1] {
        BuildInstruction::Run(x) => assert_eq!(x, "apk add curl"),
        other => panic!("{:?}", other),
    }
    match &plan.instructions[2] {
        BuildInstruction::Copy { src, dst } => {
            assert_eq!(src, "app.sh");
            assert_eq!(dst, "/bin/app.sh");
        }
        other => panic!("{:?}", other),
    }
    match &plan.instructions[3] {
        BuildInstruction::Cmd(args) => assert_eq!(args, &vec!["/bin/app.sh".to_string(), "--port".to_string(), "80".to_string()]),
        other => panic!("{:?}", other),
    }
}

#[test]
fn skips_blank_lines_and_comments() {
    let plan = plan_of("\n# base image\n   \n\tFROM  debian:12  \r\n  # another\nRUN   echo hi   there  \n");
    assert_eq!(plan.instructions.len(), 2);
    match &plan.instructions[0] {
        BuildInstruction::From(x) => assert_eq!(x, "debian:12"),
        other => panic!("{:?}", other),
    }
    match &plan.instructions[1] {
        BuildInstruction::Run(x) => assert_eq!(x, "echo hi   there"),
        other => panic!("{:?}", other),
    }
}

#[test]
fn empty_file_gives_empty_plan() {
    assert_eq!(plan_of("").instructions.len(), 0);
    assert_eq!(plan_of("\n\n# only comments\n").instructions.len(), 0);
}

#[test]
fn copy_needs_exactly_two_words() {
    assert_eq!(build_error("COPY a b c"), "invalid COPY line: COPY a b c");
    assert_eq!(build_error("FROM x\n  COPY onlyone  \n"), "invalid COPY line: COPY onlyone");
}

#[test]
fn unknown_instruction_is_refused() {
    assert_eq!(build_error("FROM x\nEXPOSE 80\nRUN y"), "unknown instruction: EXPOSE 80");
    // the keyword must be followed by a plain space
    assert_eq!(build_error("FROM\talpine"), "unknown instruction: FROM\talpine");
    assert_eq!(build_error("from alpine"), "unknown instruction: from alpine");
    assert_eq!(build_error("CMD"), "unknown instruction: CMD");
}

#[test]
fn first_bad_line_decides_the_error() {
    assert_eq!(build_error("BAD one\nCOPY a\n"), "unknown instruction: BAD one");
}

#[test]
fn cmd_splits_on_any_whitespace() {
    let plan = plan_of("CMD sh\t-c \u{3000}run");
    match &plan.instructions[0] {
        BuildInstruction::Cmd(args) => assert_eq!(args, &vec!["sh".to_string(), "-c".to_string(), "run".to_string()]),
        other => panic!("{:?}", other),
    }
}

#[test]
fn instruction_keys() {
    assert_eq!(instruction_key(&BuildInstruction::From("alpine".to_string()), &None), "FROM:alpine");
    assert_eq!(instruction_key(&BuildInstruction::Run("make".to_string()), &None), "RUN:make");
    assert_eq!(
        instruction_key(&BuildInstruction::Cmd(vec!["a".to_string(), "b".to_string()]), &None),
        "CMD:a b"
    );
    assert_eq!(instruction_key(&BuildInstruction::Cmd(vec![]), &None), "CMD:");
    let copy = BuildInstruction::Copy { src: "a.txt".to_string(), dst: "/a.txt".to_string() };
    assert_eq!(instruction_key(&copy, &None), "COPY:a.txt:/a.txt:missing");
    assert_eq!(
        instruction_key(&copy, &Some(b"hello".to_vec())),
        "COPY:a.txt:/a.txt:2cf24dba5fb0a30e26e83b2ac5b9e29e1b161e5c1fa7425e73043362938b9824"
    );
}

#[test]
fn content_digest_is_hex_sha256() {
    assert_eq!(content_digest(b""), "e3b0c44298fc1c149afbf4c8996fb92427ae41e4649b934ca495991b7852b855");
    assert_eq!(content_digest(b"abc"), "ba7816bf8f01cfea414140de5dae2223b00361a396177a9cb410ff61f20015ad");
}

fn layers_of(cache: &BuildCache) -> Vec<(String, String)> {
    cache.layers.entries().clone()
}

#[test]
fn build_assigns_and_reuses_layers() {
    let plan = plan_of("FROM alpine\nRUN make\nRUN make\nCOPY x /x\n");
    let sources = vec![None, None, None, Some(b"data".to_vec())];
    let mut cache = BuildCache::default();
    let layers = execute_build(&plan, &sources, &mut cache);
    assert_eq!(layers, vec!["layer-0", "layer-1", "layer-1", "layer-3"]);
    assert_eq!(layers_of(&cache).len(), 3);
    // a second build reuses everything and adds nothing
    let again = execute_build(&plan, &sources, &mut cache);
    assert_eq!(again, layers);
    assert_eq!(layers_of(&cache).len(), 3);
}

#[test]
fn build_keeps_existing_cache_entries() {
    let mut cache = BuildCache::default();
    cache.layers.insert("FROM alpine".to_string(), "unrelated".to_string());
    cache.layers.insert("RUN make".to_string(), "layer-7".to_string());
    cache.layers.insert("RUN:make".to_string(), "layer-9".to_string());
    let plan = plan_of("FROM alpine\nRUN make\n");
    let layers = execute_build(&plan, &vec![None, None], &mut cache);
    assert_eq!(layers, vec!["layer-0", "layer-9"]);
    let entries = layers_of(&cache);
    assert_eq!(entries.len(), 4);
    assert!(entries.contains(&("FROM alpine".to_string(), "unrelated".to_string())));
    assert!(entries.contains(&("FROM:alpine".to_string(), "layer-0".to_string())));
}

#[test]
fn changed_copy_content_gives_new_layer() {
    let plan = plan_of("COPY x /x\n");
    let mut cache = BuildCache::default();
    let first = execute_build(&plan, &vec![Some(b"v1".to_vec())], &mut cache);
    let second = execute_build(&plan, &vec![Some(b"v2".to_vec())], &mut cache);
    let missing = execute_build(&plan, &vec![None], &mut cache);
    assert_eq!(first, vec!["layer-0"]);
    assert_eq!(second, vec!["layer-0"]);
    assert_eq!(missing, vec!["layer-0"]);
    assert_eq!(layers_of(&cache).len(), 3);
}

#[test]
fn layer_numbers_count_all_layers_before() {
    let text: String = (0..12).map(|i| format!("RUN step{}\n", i)).collect();
    let plan = plan_of(&text);
    let sources = vec![None; 12];
    let mut cache = BuildCache::default();
    let layers = execute_build(&plan, &sources, &mut cache);
    assert_eq!(layers[10], "layer-10");
    assert_eq!(layers[11], "layer-11");
}

#[test]
fn cache_path_is_under_state_root() {
    assert_eq!(default_cache_path("/var/lib/grindd"), "/var/lib/grindd/build-cache.json");
    assert_eq!(default_cache_path("/var/lib/grindd/"), "/var/lib/grindd/build-cache.json");
    assert_eq!(default_cache_path(""), "build-cache.json");
}

#[test]
fn comment_lines_change_nothing() {
    let plain = plan_of("FROM a\nRUN b\n");
    let commented = plan_of("# top\nFROM a\n   # middle\n\nRUN b\n#end");
    assert_eq!(format!("{:?}", plain), format!("{:?}", commented));
}

#[test]
fn copy_keys_from_digest_text() {
    assert_eq!(copy_key("a", "/b", "missing"), "COPY:a:/b:missing");
    assert_eq!(copy_key("", "", "ff"), "COPY:::ff");
}
