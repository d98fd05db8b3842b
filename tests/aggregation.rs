use chat_box::aggregator::{aggregate, ChunkAggregator, CHECKPOINT_EVERY};

fn strings(v: &[&str]) -> Vec<String> {
    v.iter().map(|s| s.to_string()).collect()
}

#[test]
fn time_triggered_chunks_one_per_fragment() {
    let frags = strings(&["a", "b", "c", "d"]);
    let arrivals = vec![4, 8, 12, 16];
    let chunks = aggregate(7, &frags, &arrivals, 2, 3, 0);
    assert_eq!(chunks.len(), 5);
    for (i, want) in ["a", "b", "c", "d"].iter().enumerate() {
        assert_eq!(chunks[i].content, *want);
        assert!(!chunks[i].is_complete);
        assert_eq!(chunks[i].conversation_id, 7);
    }
    assert!(chunks[4].is_complete);
    assert_eq!(chunks[4].content, "");
}

#[test]
fn end_of_stream_flushes_the_buffer_before_the_terminal_chunk() {
    let frags = strings(&["a", "b"]);
    let arrivals = vec![0, 0];
    let chunks = aggregate(1, &frags, &arrivals, 100, 1000, 0);
    assert_eq!(chunks.len(), 2);
    assert_eq!(chunks[0].content, "ab");
    assert!(!chunks[0].is_complete);
    assert!(chunks[1].is_complete);
    assert_eq!(chunks[1].content, "");
}

#[test]
fn size_triggered_chunks() {
    let frags = strings(&["ab", "c", "d", "efg", "h"]);
    let arrivals = vec![0, 0, 0, 0, 0];
    let chunks = aggregate(1, &frags, &arrivals, 2, 1000, 0);
    let contents: Vec<&str> = chunks.iter().map(|c| c.content.as_str()).collect();
    assert_eq!(contents, vec!["ab", "cd", "efg", "h", ""]);
}

#[test]
fn concatenation_of_chunks_equals_concatenation_of_fragments() {
    let frags = strings(&["Hel", "lo", ", ", "wor", "", "ld", "!"]);
    let arrivals = vec![1, 2, 9, 10, 11, 30, 31];
    for size in [1usize, 2, 3, 5, 100] {
        for interval in [0u64, 1, 5, 1000] {
            let chunks = aggregate(3, &frags, &arrivals, size, interval, 0);
            let joined: String = chunks.iter().map(|c| c.content.as_str()).collect();
            assert_eq!(joined, "Hello, world!");
            let terminals = chunks.iter().filter(|c| c.is_complete).count();
            assert_eq!(terminals, 1);
            assert!(chunks.last().unwrap().is_complete);
            assert_eq!(chunks.last().unwrap().content, "");
        }
    }
}

#[test]
fn empty_stream_gives_only_the_terminal_chunk() {
    let chunks = aggregate(9, &Vec::new(), &Vec::new(), 2, 3, 0);
    assert_eq!(chunks.len(), 1);
    assert!(chunks[0].is_complete);
    assert_eq!(chunks[0].content, "");
    assert_eq!(chunks[0].conversation_id, 9);
}

#[test]
fn buffer_size_counts_characters_not_bytes() {
    let frags = strings(&["你", "好"]);
    let arrivals = vec![0, 0];
    let chunks = aggregate(1, &frags, &arrivals, 2, 1000, 0);
    assert_eq!(chunks.len(), 2);
    assert_eq!(chunks[0].content, "你好");
    assert!(!chunks[0].is_complete);
}

#[test]
fn undelivered_chunk_stays_in_the_buffer() {
    let mut agg = ChunkAggregator::new(5, 2, 1000, 0);
    let step = agg.push_fragment("ab", 1);
    assert_eq!(step.chunk.as_ref().unwrap().content, "ab");
    // delivery failed: not confirmed
    let step = agg.push_fragment("c", 2);
    assert_eq!(step.chunk.as_ref().unwrap().content, "abc");
    agg.confirm_flush(2);
    let step = agg.push_fragment("d", 3);
    assert!(step.chunk.is_none());
    let tail = agg.finish(4);
    assert_eq!(tail.len(), 2);
    assert_eq!(tail[0].content, "d");
    assert!(tail[1].is_complete);
    assert_eq!(agg.full_response(), "abcd");
    assert!(agg.is_finished());
}

#[test]
fn every_tenth_fragment_is_a_checkpoint() {
    let mut agg = ChunkAggregator::new(1, 1000, 1000, 0);
    let mut marks = Vec::new();
    for i in 1..=25u64 {
        let step = agg.push_fragment("x", 0);
        if step.checkpoint {
            marks.push(i);
        }
    }
    assert_eq!(CHECKPOINT_EVERY, 10);
    assert_eq!(marks, vec![10, 20]);
    assert_eq!(agg.fragments_received(), 25);
    assert_eq!(agg.full_response().len(), 25);
}

#[test]
fn finish_on_empty_buffer_gives_terminal_only() {
    let mut agg = ChunkAggregator::new(2, 1, 1000, 0);
    let step = agg.push_fragment("z", 0);
    assert!(step.chunk.is_some());
    agg.confirm_flush(0);
    let tail = agg.finish(1);
    assert_eq!(tail.len(), 1);
    assert!(tail[0].is_complete);
    assert_eq!(agg.conversation_id(), 2);
}
