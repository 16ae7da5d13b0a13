use fluvio_duck::bind::{Cell, DataChunk, DuckDBTypeEnum, LogicalType, TableFunction};
use fluvio_duck::partition::{
    fluvio_admin_partition_function_def, partition_init, topic_and_partition, PartitionRow,
};
use fluvio_duck::text::{cut, decimal_text, find_char, owned, same};
use fluvio_duck::topic::{fluvio_admin_topic_function_def, topic_init, TopicRow};

#[test]
fn topics_come_in_one_batch() {
    let topics = vec![
        TopicRow { name: "alpha".to_string(), partitions: 1 },
        TopicRow { name: "beta".to_string(), partitions: 12 },
    ];
    let mut init = topic_init();
    assert!(!init.done);
    let mut chunk = DataChunk::new(2, 8);
    fluvio_duck::topic::internal_read(&mut init, &topics, &mut chunk);
    assert!(init.done);
    assert_eq!(chunk.size(), 2);
    assert_eq!(chunk.get_vector(0).get(0), Cell::Bytes(b"alpha".to_vec()));
    assert_eq!(chunk.get_vector(1).get(0), Cell::Int32(1));
    assert_eq!(chunk.get_vector(0).get(1), Cell::Bytes(b"beta".to_vec()));
    assert_eq!(chunk.get_vector(1).get(1), Cell::Int32(12));
    assert_eq!(chunk.get_vector(0).get(2), Cell::Empty);

    let mut chunk = DataChunk::new(2, 8);
    fluvio_duck::topic::internal_read(&mut init, &topics, &mut chunk);
    assert!(init.done);
    assert_eq!(chunk.size(), 0);
    assert_eq!(chunk.get_vector(0).get(0), Cell::Empty);
}

#[test]
fn no_topics_is_an_empty_batch() {
    let mut init = topic_init();
    let mut chunk = DataChunk::new(2, 8);
    fluvio_duck::topic::internal_read(&mut init, &vec![], &mut chunk);
    assert!(init.done);
    assert_eq!(chunk.size(), 0);
}

#[test]
fn partitions_come_in_one_batch() {
    let partitions = vec![
        PartitionRow { name: "orders-0".to_string(), leo: 17 },
        PartitionRow { name: "my-topic-12".to_string(), leo: 0x1_0000_0002 },
        PartitionRow { name: "nodash".to_string(), leo: 3 },
        PartitionRow { name: "bad-x".to_string(), leo: -1 },
    ];
    let mut init = partition_init();
    let mut chunk = DataChunk::new(3, 4);
    fluvio_duck::partition::internal_read(&mut init, &partitions, &mut chunk);
    assert!(init.done);
    assert_eq!(chunk.size(), 4);
    let row = |r: usize| (chunk.get_vector(0).get(r), chunk.get_vector(1).get(r), chunk.get_vector(2).get(r));
    assert_eq!(row(0), (Cell::Bytes(b"orders".to_vec()), Cell::Bytes(b"0".to_vec()), Cell::UInt32(17)));
    assert_eq!(row(1), (Cell::Bytes(b"my-topic".to_vec()), Cell::Bytes(b"12".to_vec()), Cell::UInt32(2)));
    assert_eq!(
        row(2),
        (
            Cell::Bytes(b"invalid partition syntax: nodash".to_vec()),
            Cell::Bytes(b"-1".to_vec()),
            Cell::UInt32(3)
        )
    );
    assert_eq!(
        row(3),
        (
            Cell::Bytes(b"invalid partition syntax: bad-x".to_vec()),
            Cell::Bytes(b"-1".to_vec()),
            Cell::UInt32(u32::MAX)
        )
    );

    let mut chunk = DataChunk::new(3, 4);
    fluvio_duck::partition::internal_read(&mut init, &partitions, &mut chunk);
    assert_eq!(chunk.size(), 0);
    assert_eq!(chunk.get_vector(0).get(0), Cell::Empty);
}

#[test]
fn shown_parts() {
    assert_eq!(
        topic_and_partition(Ok(("t".to_string(), "3".to_string()))),
        ("t".to_string(), "3".to_string())
    );
    assert_eq!(topic_and_partition(Err("bad".to_string())), ("bad".to_string(), "-1".to_string()));
}

#[test]
fn listing_columns() {
    let topic = fluvio_duck::topic::internal_bind();
    assert_eq!(
        topic,
        vec![
            ("name", LogicalType::new(DuckDBTypeEnum::Varchar)),
            ("partitions", LogicalType::new(DuckDBTypeEnum::Integer))
        ]
    );
    let partition = fluvio_duck::partition::internal_bind();
    assert_eq!(
        partition,
        vec![
            ("topic", LogicalType::new(DuckDBTypeEnum::Varchar)),
            ("partition", LogicalType::new(DuckDBTypeEnum::Varchar)),
            ("LEO", LogicalType::new(DuckDBTypeEnum::Uinteger))
        ]
    );
}

#[test]
fn listing_table_functions() {
    let topic = fluvio_admin_topic_function_def();
    assert_eq!(topic.name, "fluvio_topic");
    assert!(topic.parameters.is_empty());
    let partition = fluvio_admin_partition_function_def();
    assert_eq!(partition.name, "fluvio_partition");
    assert!(partition.parameters.is_empty());
}

#[test]
fn table_function_is_built_step_by_step() {
    let mut function = TableFunction::new();
    assert_eq!(function.name, "");
    function.set_name("f");
    function.add_parameter(&LogicalType::default());
    function.add_parameter(&LogicalType::new(DuckDBTypeEnum::Bigint));
    assert_eq!(function.name, "f");
    assert_eq!(
        function.parameters,
        vec![LogicalType(DuckDBTypeEnum::Varchar), LogicalType(DuckDBTypeEnum::Bigint)]
    );
}

#[test]
fn batch_cells() {
    let mut chunk = DataChunk::new(2, 3);
    assert_eq!(chunk.column_count(), 2);
    assert_eq!(chunk.capacity(), 3);
    assert_eq!(chunk.size(), 0);
    chunk.set_data(1, 2, Cell::Double(5));
    chunk.assign_string_element(0, 1, b"abc");
    chunk.set_size(3);
    assert_eq!(chunk.size(), 3);
    assert_eq!(chunk.get_vector(1).get(2), Cell::Double(5));
    assert_eq!(chunk.get_vector(0).get(1), Cell::Bytes(b"abc".to_vec()));
    assert_eq!(chunk.get_vector(0).get(0), Cell::Empty);
    assert_eq!(chunk.get_vector(0).capacity(), 3);
    assert_eq!(Cell::Bytes(vec![1, 2]).duplicate(), Cell::Bytes(vec![1, 2]));
}

#[test]
fn text_helpers() {
    assert_eq!(find_char("a=b=c", '=', 0), 1);
    assert_eq!(find_char("a=b=c", '=', 2), 3);
    assert_eq!(find_char("a=b=c", '=', 4), 5);
    assert_eq!(find_char("\u{e4}\u{f6}=", '=', 0), 2);
    assert_eq!(cut("\u{e4}\u{f6}=x", 1, 3), "\u{f6}=");
    assert_eq!(cut("abc", 3, 3), "");
    assert_eq!(owned("abc"), "abc");
    assert!(same("abc", "abc"));
    assert!(!same("abc", "abd"));
    assert!(!same("abc", "ab"));
    assert_eq!(decimal_text(0), "0");
    assert_eq!(decimal_text(9), "9");
    assert_eq!(decimal_text(10), "10");
    assert_eq!(decimal_text(1_203_405), "1203405");
    assert_eq!(decimal_text(u32::MAX), "4294967295");
}
