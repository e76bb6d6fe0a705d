pub mod headers;
pub mod sekai_client;
