pub mod call_request;
