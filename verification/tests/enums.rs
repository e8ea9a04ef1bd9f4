use mir::DataType;
use mir::Optimization;

const ALL_TYPES: [DataType; 14] = [
    DataType::I8,
    DataType::U8,
    DataType::I16,
    DataType::U16,
    DataType::I32,
    DataType::U32,
    DataType::I64,
    DataType::U64,
    DataType::Float,
    DataType::Double,
    DataType::LongDouble,
    DataType::Pointer,
    DataType::Block,
    DataType::RBlock,
];

const ALL_LEVELS: [Optimization; 4] = [
    Optimization::L0,
    Optimization::L1,
    Optimization::L2,
    Optimization::L3,
];

#[test]
fn integers_and_the_pointer_are_integer_like() {
    assert!(DataType::I8.is_integer());
    assert!(DataType::U8.is_integer());
    assert!(DataType::I16.is_integer());
    assert!(DataType::U16.is_integer());
    assert!(DataType::I32.is_integer());
    assert!(DataType::U32.is_integer());
    assert!(DataType::I64.is_integer());
    assert!(DataType::U64.is_integer());
    assert!(DataType::Pointer.is_integer());
    assert!(!DataType::Float.is_integer());
    assert!(!DataType::Double.is_integer());
    assert!(!DataType::LongDouble.is_integer());
    assert!(!DataType::Block.is_integer());
    assert!(!DataType::RBlock.is_integer());
}

#[test]
fn three_precisions_are_float_like() {
    assert!(DataType::Float.is_float());
    assert!(DataType::Double.is_float());
    assert!(DataType::LongDouble.is_float());
    assert_eq!(ALL_TYPES.iter().filter(|t| t.is_float()).count(), 3);
    assert_eq!(ALL_TYPES.iter().filter(|t| t.is_integer()).count(), 9);
}

#[test]
fn blocks_are_neither_integer_nor_float() {
    for block in [DataType::Block, DataType::RBlock] {
        assert!(!block.is_integer());
        assert!(!block.is_float());
    }
    for t in ALL_TYPES {
        assert!(!(t.is_integer() && t.is_float()));
        if !t.is_integer() && !t.is_float() {
            assert!(t == DataType::Block || t == DataType::RBlock);
        }
    }
}

#[test]
fn data_type_codes() {
    assert_eq!(DataType::I8.code(), 0);
    assert_eq!(DataType::U8.code(), 1);
    assert_eq!(DataType::I16.code(), 2);
    assert_eq!(DataType::U16.code(), 3);
    assert_eq!(DataType::I32.code(), 4);
    assert_eq!(DataType::U32.code(), 5);
    assert_eq!(DataType::I64.code(), 6);
    assert_eq!(DataType::U64.code(), 7);
    assert_eq!(DataType::Float.code(), 8);
    assert_eq!(DataType::Double.code(), 9);
    assert_eq!(DataType::LongDouble.code(), 10);
    assert_eq!(DataType::Pointer.code(), 11);
    assert_eq!(DataType::Block.code(), 12);
    assert_eq!(DataType::RBlock.code(), 17);
}

#[test]
fn data_type_codes_are_distinct() {
    for a in ALL_TYPES {
        for b in ALL_TYPES {
            assert_eq!(a.code() == b.code(), a == b);
        }
    }
}

#[test]
fn optimization_codes() {
    assert_eq!(Optimization::L0.code(), 0);
    assert_eq!(Optimization::L1.code(), 1);
    assert_eq!(Optimization::L2.code(), 2);
    assert_eq!(Optimization::L3.code(), 3);
}

#[test]
fn optimization_defaults_to_the_second_level() {
    assert_eq!(Optimization::default(), Optimization::L2);
}

#[test]
fn optimization_levels_are_ordered_as_their_codes() {
    assert!(Optimization::L0 < Optimization::L1);
    assert!(Optimization::L1 < Optimization::L2);
    assert!(Optimization::L2 < Optimization::L3);
    for a in ALL_LEVELS {
        for b in ALL_LEVELS {
            assert_eq!(a.partial_cmp(&b), Some(a.code().cmp(&b.code())));
            assert_eq!(a.cmp(&b), a.code().cmp(&b.code()));
            assert_eq!(a < b, a.code() < b.code());
            assert_eq!(a == b, a.code() == b.code());
        }
    }
    assert_eq!(ALL_LEVELS.iter().max(), Some(&Optimization::L3));
    assert_eq!(ALL_LEVELS.iter().min(), Some(&Optimization::L0));
}
