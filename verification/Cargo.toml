[package]
name = "html_meta"
version = "0.1.0"
edition = "2021"
publish = false

[dependencies]
scraper = "*"
url = "*"
chrono = "*"
isbn2 = "*"
unic-langid = "*"
mime = "*"
deunicode = "*"
human_name = "*"
hayagriva = "0.3"
