pub mod managing_agent;
