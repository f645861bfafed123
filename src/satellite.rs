//! The photographic image of a project: the request to the orthophoto map service, and the
//! retry decisions around downloading it.
use vstd::prelude::*;

use crate::canvas::{pixels_for, CanvasError};
use crate::geometry::BoundingBox;
use crate::text::{i64_text, int_text, join, join_path};

verus! {

/// The GDAL WMS description of the orthophoto layer over `bb`, `width` x `height` pixels, with
/// its tile cache in `cache`.
pub open spec fn wms_document(bb: BoundingBox, width: int, height: int, cache: Seq<char>) -> Seq<char> {
    "<GDAL_WMS>\n  <Service name=\"WMS\">\n    <Version>1.3.0</Version>\n    <ServerUrl>https://data.geopf.fr/wms-r/wms</ServerUrl>\n    <CRS>EPSG:2154</CRS>\n    <ImageFormat>image/jpeg</ImageFormat>\n    <Layers>ORTHOIMAGERY.ORTHOPHOTOS</Layers>\n    <Styles></Styles>\n  </Service>\n  <DataWindow>\n    <UpperLeftX>"@
        + int_text(bb.xmin as int)
        + "</UpperLeftX>\n    <UpperLeftY>"@
        + int_text(bb.ymax as int)
        + "</UpperLeftY>\n    <LowerRightX>"@
        + int_text(bb.xmax as int)
        + "</LowerRightX>\n    <LowerRightY>"@
        + int_text(bb.ymin as int)
        + "</LowerRightY>\n    <SizeX>"@
        + int_text(width as int)
        + "</SizeX>\n    <SizeY>"@
        + int_text(height as int)
        + "</SizeY>\n  </DataWindow>\n  <BandsCount>3</BandsCount>\n  <BlockSizeX>2048</BlockSizeX>\n  <BlockSizeY>2048</BlockSizeY>\n  <OverviewCount>0</OverviewCount>\n  <ZeroBlockHttpCodes>204,400,404,502,503,504</ZeroBlockHttpCodes>\n  <MaxConnections>10</MaxConnections>\n  <Timeout>120</Timeout>\n  <Cache>\n    <Type>Disk</Type>\n    <Path>"@
        + cache
        + "</Path>\n    <MaxSize>500000000</MaxSize>\n  </Cache>\n  <UserAgent>GDAL WMS driver (https://gdal.org/drivers/raster/wms.html)</UserAgent>\n  <UnsafeSSL>true</UnsafeSSL>\n  <Retry>\n    <Count>5</Count>\n    <Delay>1</Delay>\n  </Retry>\n</GDAL_WMS>\n"@
}

fn wms_document_exec(bb: &BoundingBox, width: i64, height: i64, cache: &str) -> (r: String)
    ensures
        r@ == wms_document(*bb, width as int, height as int, cache@),
{
    let mut s = String::new();
    s.append("<GDAL_WMS>\n  <Service name=\"WMS\">\n    <Version>1.3.0</Version>\n    <ServerUrl>https://data.geopf.fr/wms-r/wms</ServerUrl>\n    <CRS>EPSG:2154</CRS>\n    <ImageFormat>image/jpeg</ImageFormat>\n    <Layers>ORTHOIMAGERY.ORTHOPHOTOS</Layers>\n    <Styles></Styles>\n  </Service>\n  <DataWindow>\n    <UpperLeftX>");
    let t_bb_xmin = i64_text(bb.xmin as i64);
    s.append(t_bb_xmin.as_str());
    s.append("</UpperLeftX>\n    <UpperLeftY>");
    let t_bb_ymax = i64_text(bb.ymax as i64);
    s.append(t_bb_ymax.as_str());
    s.append("</UpperLeftY>\n    <LowerRightX>");
    let t_bb_xmax = i64_text(bb.xmax as i64);
    s.append(t_bb_xmax.as_str());
    s.append("</LowerRightX>\n    <LowerRightY>");
    let t_bb_ymin = i64_text(bb.ymin as i64);
    s.append(t_bb_ymin.as_str());
    s.append("</LowerRightY>\n    <SizeX>");
    let t_width = i64_text(width as i64);
    s.append(t_width.as_str());
    s.append("</SizeX>\n    <SizeY>");
    let t_height = i64_text(height as i64);
    s.append(t_height.as_str());
    s.append("</SizeY>\n  </DataWindow>\n  <BandsCount>3</BandsCount>\n  <BlockSizeX>2048</BlockSizeX>\n  <BlockSizeY>2048</BlockSizeY>\n  <OverviewCount>0</OverviewCount>\n  <ZeroBlockHttpCodes>204,400,404,502,503,504</ZeroBlockHttpCodes>\n  <MaxConnections>10</MaxConnections>\n  <Timeout>120</Timeout>\n  <Cache>\n    <Type>Disk</Type>\n    <Path>");
    s.append(cache);
    s.append("</Path>\n    <MaxSize>500000000</MaxSize>\n  </Cache>\n  <UserAgent>GDAL WMS driver (https://gdal.org/drivers/raster/wms.html)</UserAgent>\n  <UnsafeSSL>true</UnsafeSSL>\n  <Retry>\n    <Count>5</Count>\n    <Delay>1</Delay>\n  </Retry>\n</GDAL_WMS>\n");
    assert(s@ =~= wms_document(*bb, width as int, height as int, cache@));
    s
}

/// What downloading the photographic image of a box needs: its pixel size at the project's
/// resolution, the WMS description and where the intermediate files go.
pub struct SatelliteRequest {
    pub width: i64,
    pub height: i64,
    pub wms_config: String,
    pub wms_file: String,
    pub raster_file: String,
    pub jpeg_file: String,
    /// The `{width}x{height}` geometry that the image is resized to.
    pub resize: String,
}

/// The request for the photographic image of `bb` at `resolution` metres per pixel, with its
/// intermediate files in `temp_dir` and the map tiles cached in `{temp_dir}/wms_cache`.
pub fn satellite_request(bb: &BoundingBox, resolution: u32, temp_dir: &str) -> (r: Result<SatelliteRequest, CanvasError>)
    requires
        bb.wf(),
    ensures
        r is Err <==> resolution == 0,
        r is Err ==> r == Err::<SatelliteRequest, CanvasError>(CanvasError::ZeroResolution),
        r matches Ok(q) ==> {
            let w = pixels_for(bb.spec_width(), resolution as int);
            let h = pixels_for(bb.spec_height(), resolution as int);
            &&& q.width == w
            &&& q.height == h
            &&& q.wms_config@ == wms_document(*bb, w, h, join_path(temp_dir@, "wms_cache"@))
            &&& q.wms_file@ == join_path(temp_dir@, "wms_config.xml"@)
            &&& q.raster_file@ == join_path(temp_dir@, "satellite_temp.tif"@)
            &&& q.jpeg_file@ == join_path(temp_dir@, "satellite_temp.jpg"@)
            &&& q.resize@ == int_text(w) + "x"@ + int_text(h)
        },
{
    if resolution == 0 {
        return Err(CanvasError::ZeroResolution);
    }
    let w = crate::canvas::ceil_div_i64(bb.width(), resolution as i64);
    let h = crate::canvas::ceil_div_i64(bb.height(), resolution as i64);
    let cache = join(temp_dir, "wms_cache");
    let tw = i64_text(w);
    let th = i64_text(h);
    let resize = tw.concat("x").concat(th.as_str());
    Ok(
        SatelliteRequest {
            width: w,
            height: h,
            wms_config: wms_document_exec(bb, w, h, cache.as_str()),
            wms_file: join(temp_dir, "wms_config.xml"),
            raster_file: join(temp_dir, "satellite_temp.tif"),
            jpeg_file: join(temp_dir, "satellite_temp.jpg"),
            resize,
        },
    )
}

/// Attempts at downloading the photographic image before giving up.
pub const MAX_DOWNLOAD_ATTEMPTS: u32 = 3;

/// Seconds to wait before another attempt.
pub const RETRY_DELAY_SECS: u64 = 5;

/// What to do after an attempt at downloading.
#[derive(Clone, Copy, Debug, PartialEq, Eq, Structural)]
pub enum DownloadStep {
    /// The image is there.
    Done,
    /// Wait this many seconds, then try again.
    RetryAfter(u64),
    /// Report the failure.
    GiveUp,
}

/// The step after `attempts` attempts, the last of which succeeded or not: done on success; after
/// a failure, another attempt in five seconds while fewer than three were made, else give up.
pub fn next_download_step(attempts: u32, succeeded: bool) -> (r: DownloadStep)
    ensures
        succeeded ==> r == DownloadStep::Done,
        !succeeded && attempts < MAX_DOWNLOAD_ATTEMPTS ==> r == DownloadStep::RetryAfter(RETRY_DELAY_SECS),
        !succeeded && attempts >= MAX_DOWNLOAD_ATTEMPTS ==> r == DownloadStep::GiveUp,
{
    if succeeded {
        DownloadStep::Done
    } else if attempts < MAX_DOWNLOAD_ATTEMPTS {
        DownloadStep::RetryAfter(RETRY_DELAY_SECS)
    } else {
        DownloadStep::GiveUp
    }
}

/// Why a downloaded image is refused.
#[derive(Clone, Copy, Debug, PartialEq, Eq, Structural)]
pub enum DownloadError {
    /// The downloaded file is empty.
    EmptyFile,
}

/// Accepts a downloaded file of `size` bytes: an empty one is a failure.
pub fn accept_download(size: u64) -> (r: Result<(), DownloadError>)
    ensures
        r is Ok <==> size > 0,
        r matches Err(e) ==> e == DownloadError::EmptyFile,
{
    if size == 0 {
        Err(DownloadError::EmptyFile)
    } else {
        Ok(())
    }
}

} // verus!
