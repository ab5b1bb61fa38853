[package]
name = "ksj2gp"
version = "0.1.0"
edition = "2021"
publish = false

[dependencies]
zip = "=8.6.0"
regex = "=1.13.1"
encoding_rs = "=0.8.42"
proj4rs = "=0.2.0"
shapefile = { version = "=0.9.0", features = ["encoding_rs"] }
arrow-array = "=59.3.0"
arrow-schema = "=59.3.0"
geoarrow-array = "=0.9.0"
geoarrow-schema = "=0.9.0"
geoarrow-geojson = "=0.9.0"
geoparquet = "=0.9.0"
parquet = { version = "=59.3.0", features = ["arrow"] }
geo-traits = "=0.3.0"
geo-types = "=0.7.20"
rusqlite-gpkg = "=0.0.8"
clap = { version = "=4.6.7", features = ["derive"] }
tempfile = "=3.27.0"
