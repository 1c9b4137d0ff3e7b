//! Client-side logic for the M2Web REST API.
//!
//! The M2Web REST API provides access and control to the eWONs which belong to a
//! Talk2M account. This library holds everything about a call to the API that can
//! be decided without touching the network: which query parameters authenticate a
//! request, how the JSON of a response is decoded, and which value or error a
//! response stands for. Sending the request is left to the caller.
//!
//! The developer documentation for the M2Web REST API could be found
//! [here](https://developer.ewon.biz/content/m2web-api-0).
//!
//! # Example
//! ```rust
//! use libewon::m2web::client::{api_response, ClientBuilder, Reply};
//!
//! let client = ClientBuilder::default()
//!     .t2m_url("https://m2web.talk2m.com/t2mapi")
//!     .t2m_account("account1")
//!     .t2m_username("username1")
//!     .t2m_password("password1")
//!     .t2m_developer_id("731e38ec-981f-4f31-9cb5-e87f0d571816")
//!     .build()
//!     .unwrap();
//!
//! // What to send.
//! let request = client.get_ewons_request(Some("emea")).unwrap();
//! assert_eq!(request.url, "https://m2web.talk2m.com/t2mapi/getewons");
//!
//! // What came back, once it was sent.
//! let reply = Reply { status: 200, body: r#"{"ewons": [], "success": true}"#.to_string() };
//! let ewons = client.get_ewons(api_response(Ok(reply)));
//! assert_eq!(ewons.unwrap_err().to_string(), "HTTP 204: No eWON were returned by API");
//! ```

pub mod m2web;
