use aspy::embedding::{blob_to_embedding, embedding_to_blob, ContentType};

#[test]
fn test_embedding_blob_roundtrip() {
    let embedding: Vec<f32> = vec![0.1, 0.2, 0.3, -0.4, 0.5];
    let bits: Vec<u32> = embedding.iter().map(|v| v.to_bits()).collect();
    let blob = embedding_to_blob(&bits);
    let restored: Vec<f32> = blob_to_embedding(&blob).into_iter().map(f32::from_bits).collect();

    assert_eq!(embedding.len(), restored.len());
    for (a, b) in embedding.iter().zip(restored.iter()) {
        assert!((a - b).abs() < 1e-6);
    }
}

#[test]
fn test_content_type_tables() {
    assert_eq!(ContentType::Thinking.content_table(), "thinking_blocks");
    assert_eq!(ContentType::Thinking.embedding_table(), "thinking_embeddings");
    assert_eq!(ContentType::Prompt.content_table(), "user_prompts");
    assert_eq!(ContentType::Response.embedding_table(), "responses_embeddings");
}

#[test]
fn blob_matches_le_bytes_of_bits() {
    let value: f32 = 1.5;
    let blob = embedding_to_blob(&[value.to_bits()]);
    assert_eq!(blob, value.to_le_bytes().to_vec());
    assert_eq!(embedding_to_blob(&[0x0403_0201]), vec![1, 2, 3, 4]);
}

#[test]
fn blob_trailing_bytes_are_ignored() {
    assert_eq!(blob_to_embedding(&[1, 2, 3, 4, 9, 9]), vec![0x0403_0201]);
    assert_eq!(blob_to_embedding(&[]), Vec::<u32>::new());
}
