//! Routing and server-side HTML rendering.
pub mod async_views;
pub mod dynamic_matching;
pub mod html;
pub mod hydration;
pub mod location;
pub mod matching;
pub mod route;
pub mod route2;
pub mod router;
pub mod ssr;
pub mod strs;
pub mod view;
